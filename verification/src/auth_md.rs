//! `GET /auth.md` — the agent-registration discovery document: a template with this instance's
//! public URL and service name substituted, so every example targets the live origin.

use vstd::prelude::*;
use crate::text::{replace_all, replace_spec, trim_end_char, trim_end_char_spec};

verus! {

/// The content type the document is served with.
pub const AUTH_MD_CONTENT_TYPE: &'static str = "text/markdown; charset=utf-8";

/// The rendered document: every `{{public_url}}` replaced by the public URL without trailing
/// slashes (so no example reads `https://host//oauth/...`), then every `{{service_name}}` by the
/// service name.
pub open spec fn render_auth_md_spec(template: Seq<char>, public_url: Seq<char>, service_name: Seq<char>) -> Seq<char> {
    replace_spec(
        replace_spec(template, "{{public_url}}"@, trim_end_char_spec(public_url, '/')),
        "{{service_name}}"@,
        service_name,
    )
}

/// Render the document from its template.
pub fn render_auth_md(template: &str, public_url: &str, service_name: &str) -> (r: String)
    ensures
        r@ == render_auth_md_spec(template@, public_url@, service_name@),
{
    proof {
        reveal_strlit("{{public_url}}");
        reveal_strlit("{{service_name}}");
    }
    let base = trim_end_char(public_url, '/');
    let first = replace_all(template, "{{public_url}}", base.as_str());
    replace_all(first.as_str(), "{{service_name}}", service_name)
}


/// The public URL substituted into the document never ends with `/`, so no example reads
/// `https://host//path`.
pub proof fn substituted_base_has_no_trailing_slash(public_url: Seq<char>)
    ensures
        trim_end_char_spec(public_url, '/').len() == 0 || trim_end_char_spec(public_url, '/').last() != '/',
    decreases public_url.len(),
{
    if public_url.len() > 0 && public_url.last() == '/' {
        substituted_base_has_no_trailing_slash(public_url.drop_last());
    }
}

/// Replacing a pattern that occurs nowhere in a text leaves the text as it is (a template without
/// a placeholder is served verbatim).
pub proof fn replacing_an_absent_pattern_changes_nothing(s: Seq<char>, pat: Seq<char>, to: Seq<char>)
    requires
        pat.len() > 0,
        forall|i: int| 0 <= i <= s.len() ==> !pat.is_prefix_of(#[trigger] s.skip(i)),
    ensures
        replace_spec(s, pat, to) == s,
    decreases s.len(),
{
    if s.len() > 0 {
        assert(s.skip(0) =~= s);
        assert forall|i: int| 0 <= i <= s.drop_first().len() implies !pat.is_prefix_of(#[trigger] s.drop_first().skip(i)) by {
            assert(s.drop_first().skip(i) =~= s.skip(i + 1));
        }
        replacing_an_absent_pattern_changes_nothing(s.drop_first(), pat, to);
        assert(seq![s[0]] + s.drop_first() =~= s);
    }
}

} // verus!
