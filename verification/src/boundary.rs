//! The calls this library makes into outside crates. Each item here states what the outside
//! function does as far as its source and documentation show; nothing below is proved.

use vstd::prelude::*;
use base64::Engine;
use rand_core::RngCore;
use crate::check_account_status::RecordValue;

verus! {

/// `ipld_core::ipld::Ipld`: a decoded IPLD data-model value (opaque here).
#[verifier::external_type_specification]
#[verifier::external_body]
pub struct ExIpld(ipld_core::ipld::Ipld);

/// `jsonwebtoken::DecodingKey`: a public key to verify JWT signatures with (opaque here).
#[verifier::external_type_specification]
#[verifier::external_body]
pub struct ExDecodingKey(jsonwebtoken::DecodingKey);

/// `n` bytes from the operating system's random source (`rand_core::OsRng::try_fill_bytes`);
/// `None` when that source fails. Only the length is promised; the bytes depend on chance.
#[verifier::external_body]
pub(crate) fn random_bytes(n: usize) -> (r: Option<Vec<u8>>)
    ensures
        r matches Some(b) ==> b@.len() == n,
{
    let mut buf = vec![0u8; n];
    rand_core::OsRng.try_fill_bytes(&mut buf).ok().map(|_| buf)
}

/// The character of the URL-safe base64 alphabet (RFC 4648 §5) for the six-bit value `v`:
/// `A–Z`, `a–z`, `0–9`, then `-` and `_`.
pub open spec fn base64url_char(v: u8) -> char {
    if v < 26 {
        (65 + v) as char
    } else if v < 52 {
        (97 + v - 26) as char
    } else if v < 62 {
        (48 + v - 52) as char
    } else if v == 62 {
        '-'
    } else {
        '_'
    }
}

/// The unpadded URL-safe base64 text of `b` (RFC 4648 §5): each group of three bytes becomes four
/// characters of six bits each, most significant first; a final group of one or two bytes
/// becomes two or three characters, its last one padded with zero bits, and no `=` follows.
pub open spec fn base64url_text(b: Seq<u8>) -> Seq<char>
    decreases b.len(),
{
    if b.len() == 0 {
        Seq::empty()
    } else if b.len() == 1 {
        seq![base64url_char(b[0] >> 2u8), base64url_char((b[0] & 3) << 4u8)]
    } else if b.len() == 2 {
        seq![
            base64url_char(b[0] >> 2u8),
            base64url_char(((b[0] & 3) << 4u8) | (b[1] >> 4u8)),
            base64url_char((b[1] & 15) << 2u8),
        ]
    } else {
        seq![
            base64url_char(b[0] >> 2u8),
            base64url_char(((b[0] & 3) << 4u8) | (b[1] >> 4u8)),
            base64url_char(((b[1] & 15) << 2u8) | (b[2] >> 6u8)),
            base64url_char(b[2] & 63),
        ] + base64url_text(b.skip(3))
    }
}

/// A character of the URL-safe base64 alphabet: `A–Z`, `a–z`, `0–9`, `-` and `_`.
pub open spec fn is_base64url_char(c: char) -> bool {
    ('A' <= c && c <= 'Z') || ('a' <= c && c <= 'z') || ('0' <= c && c <= '9') || c == '-' || c
        == '_'
}

/// `base64::engine::general_purpose::URL_SAFE_NO_PAD.encode`: the unpadded URL-safe base64 text
/// of the input.
#[verifier::external_body]
pub(crate) fn base64url_encode(bytes: &[u8]) -> (r: String)
    ensures
        r@ == base64url_text(bytes@),
{
    base64::engine::general_purpose::URL_SAFE_NO_PAD.encode(bytes)
}

/// The bytes an unpadded URL-safe base64 text decodes to, or `None` when it is not one.
pub uninterp spec fn base64url_bytes(text: Seq<u8>) -> Option<Seq<u8>>;

/// The bytes of an ASCII text, one per character.
pub open spec fn text_bytes(t: Seq<char>) -> Seq<u8> {
    Seq::new(t.len(), |i: int| t[i] as u8)
}

/// `base64::engine::general_purpose::URL_SAFE_NO_PAD.decode`, with its error dropped. The
/// engine decodes the unpadded text its own encoder writes back to the bytes encoded (the zero
/// bits that end such a text are the ones its trailing-bits check asks for).
#[verifier::external_body]
pub(crate) fn base64url_decode(text: &[u8]) -> (r: Option<Vec<u8>>)
    ensures
        match r {
            Some(v) => base64url_bytes(text@) == Some(v@),
            None => base64url_bytes(text@) is None,
        },
        (exists|b: Seq<u8>| text@ == text_bytes(#[trigger] base64url_text(b))) ==> r is Some,
        r matches Some(v) ==> forall|b: Seq<u8>| text@ == text_bytes(#[trigger] base64url_text(b)) ==> v@ == b,
{
    base64::engine::general_purpose::URL_SAFE_NO_PAD.decode(text).ok()
}

/// A lower-case hexadecimal digit.
pub open spec fn is_lower_hex(c: char) -> bool {
    ('0' <= c && c <= '9') || ('a' <= c && c <= 'f')
}

/// The lower-case hexadecimal digit of `n` (below 16).
pub open spec fn hex_digit(n: int) -> char {
    if n < 10 {
        (48 + n) as char
    } else {
        (87 + n) as char
    }
}

/// Sixteen random bytes with the version (4) and variant (RFC 4122) bits of a random UUID set:
/// byte 6 keeps its low nibble under a `4`, byte 8 its low six bits under `10`.
pub open spec fn uuid_v4_bytes(b: Seq<u8>) -> Seq<u8> {
    b.update(6, (b[6] & 0x0f) | 0x40).update(8, (b[8] & 0x3f) | 0x80)
}

/// The simple form of the UUID with bytes `b`: two lower-case hex digits per byte, high nibble
/// first.
pub open spec fn uuid_hex(b: Seq<u8>) -> Seq<char> {
    Seq::new(
        32,
        |i: int|
            if i % 2 == 0 {
                hex_digit((b[i / 2] >> 4u8) as int)
            } else {
                hex_digit((b[i / 2] & 0x0f) as int)
            },
    )
}

/// The hyphenated form of a UUID whose simple form is `h`: groups of 8, 4, 4, 4 and 12 digits.
pub open spec fn uuid_hyphenated(h: Seq<char>) -> Seq<char> {
    h.subrange(0, 8) + seq!['-'] + h.subrange(8, 12) + seq!['-'] + h.subrange(12, 16) + seq!['-']
        + h.subrange(16, 20) + seq!['-'] + h.subrange(20, 32)
}

/// The random (version 4) UUID built from `bytes` (`uuid::Builder::from_random_bytes`, which sets
/// the version and variant bits), displayed hyphenated in lower case (`Uuid::hyphenated`).
#[verifier::external_body]
pub(crate) fn uuid_v4_hyphenated(bytes: [u8; 16]) -> (r: String)
    ensures
        r@ == uuid_hyphenated(uuid_hex(uuid_v4_bytes(bytes@))),
{
    uuid::Builder::from_random_bytes(bytes).into_uuid().hyphenated().to_string()
}

/// The random (version 4) UUID built from `bytes` (`uuid::Builder::from_random_bytes`), in its
/// simple lower-case form (`Uuid::simple`).
#[verifier::external_body]
pub(crate) fn uuid_v4_simple(bytes: [u8; 16]) -> (r: String)
    ensures
        r@ == uuid_hex(uuid_v4_bytes(bytes@)),
{
    uuid::Builder::from_random_bytes(bytes).into_uuid().simple().to_string()
}

/// The string held by the top-level member `key` of the JSON text `bytes`; `None` when the text is
/// not JSON, has no such member, or the member is not a string.
pub uninterp spec fn json_string_member_of(bytes: Seq<u8>, key: Seq<char>) -> Option<Seq<char>>;

/// `serde_json::from_slice::<serde_json::Value>(bytes)`, then `Value::get(key)` and
/// `Value::as_str` on the result.
#[verifier::external_body]
pub(crate) fn json_string_member(bytes: &[u8], key: &str) -> (r: Option<String>)
    ensures
        match r {
            Some(v) => json_string_member_of(bytes@, key@) == Some(v@),
            None => json_string_member_of(bytes@, key@) is None,
        },
{
    let value: serde_json::Value = serde_json::from_slice(bytes).ok()?;
    value.get(key)?.as_str().map(|s| s.to_string())
}

/// The instant an RFC 3339 timestamp names, as Unix seconds and the sub-second nanoseconds; `None`
/// when the text is not RFC 3339.
pub uninterp spec fn rfc3339_instant_of(text: Seq<char>) -> Option<(i64, u32)>;

/// `chrono::DateTime::parse_from_rfc3339`, read back with `timestamp()` and
/// `timestamp_subsec_nanos()`. A chrono date lies within years -262143..=262142, so its Unix
/// seconds are below 10^13 in magnitude, and the sub-second nanoseconds are below 2 * 10^9 (a
/// leap second reads past 999,999,999).
#[verifier::external_body]
pub(crate) fn rfc3339_instant(text: &str) -> (r: Option<(i64, u32)>)
    ensures
        r == rfc3339_instant_of(text@),
        r matches Some(t) ==> -10_000_000_000_000 < t.0 < 10_000_000_000_000 && t.1 < 2_000_000_000,
{
    chrono::DateTime::parse_from_rfc3339(text).ok().map(|t| (t.timestamp(), t.timestamp_subsec_nanos()))
}

/// The Unix seconds of chrono's earliest date, `DateTime::<Utc>::MIN_UTC` (year -262143, January 1).
pub open spec fn chrono_min_secs() -> int {
    -8334601315200
}

/// The Unix seconds of the last whole second of chrono's latest date, `DateTime::<Utc>::MAX_UTC`
/// (year 262142, December 31, 23:59:59).
pub open spec fn chrono_max_secs() -> int {
    8210266876799
}

/// The longest PEM text handed to jsonwebtoken's key parsers. Their DER reader
/// (`simple_asn1::from_der`) recurses once per nesting level with no depth limit, so only a
/// bounded input is safe from exhausting the stack; any EC, RSA or Ed25519 public-key PEM is far
/// shorter.
pub open spec fn max_pem_len() -> nat {
    4096
}

/// Whether `jsonwebtoken::DecodingKey::from_ec_pem` accepts `pem`: a PEM block that holds a PKCS#8
/// EC public key whose first bit string can be found. The parse reads the bytes alone.
pub uninterp spec fn ec_pem_accepts(pem: Seq<u8>) -> bool;

/// Whether `jsonwebtoken::DecodingKey::from_rsa_pem` accepts `pem`: a PEM block that holds a PKCS#1
/// RSA key, or a PKCS#8 RSA key whose first bit string can be found.
pub uninterp spec fn rsa_pem_accepts(pem: Seq<u8>) -> bool;

/// Whether `jsonwebtoken::DecodingKey::from_ed_pem` accepts `pem`: a PEM block that holds a PKCS#8
/// Ed25519 public key whose first bit string can be found.
pub uninterp spec fn ed_pem_accepts(pem: Seq<u8>) -> bool;

/// `jsonwebtoken::DecodingKey::from_ec_pem`, with its error dropped. The key itself is opaque;
/// whether one comes back is the named outcome of parsing the bytes.
#[verifier::external_body]
pub(crate) fn ec_pem_key(pem: &[u8]) -> (r: Option<jsonwebtoken::DecodingKey>)
    requires
        pem@.len() <= max_pem_len(),
    ensures
        r is Some == ec_pem_accepts(pem@),
{
    jsonwebtoken::DecodingKey::from_ec_pem(pem).ok()
}

/// `jsonwebtoken::DecodingKey::from_rsa_pem`, with its error dropped. The key itself is opaque;
/// whether one comes back is the named outcome of parsing the bytes.
#[verifier::external_body]
pub(crate) fn rsa_pem_key(pem: &[u8]) -> (r: Option<jsonwebtoken::DecodingKey>)
    requires
        pem@.len() <= max_pem_len(),
    ensures
        r is Some == rsa_pem_accepts(pem@),
{
    jsonwebtoken::DecodingKey::from_rsa_pem(pem).ok()
}

/// `jsonwebtoken::DecodingKey::from_ed_pem`, with its error dropped. The key itself is opaque;
/// whether one comes back is the named outcome of parsing the bytes.
#[verifier::external_body]
pub(crate) fn ed_pem_key(pem: &[u8]) -> (r: Option<jsonwebtoken::DecodingKey>)
    requires
        pem@.len() <= max_pem_len(),
    ensures
        r is Some == ed_pem_accepts(pem@),
{
    jsonwebtoken::DecodingKey::from_ed_pem(pem).ok()
}


/// The elements of the array held by the top-level member `key` of the JSON text `text`, each as
/// the string it holds or `None` when it is not a string; `None` when the text is not JSON, has
/// no such member, or the member is not an array.
pub uninterp spec fn json_member_strings_of(text: Seq<char>, key: Seq<char>) -> Option<Seq<Option<Seq<char>>>>;

/// The text an optional string holds.
pub open spec fn opt_text(e: Option<String>) -> Option<Seq<char>> {
    match e {
        Some(s) => Some(s@),
        None => None,
    }
}

/// `serde_json::from_str::<serde_json::Value>(text)`, then `Value::get(key)` and
/// `Value::as_array`, each element read with `Value::as_str`.
#[verifier::external_body]
pub(crate) fn json_member_strings(text: &str, key: &str) -> (r: Option<Vec<Option<String>>>)
    ensures
        match r {
            Some(v) => json_member_strings_of(text@, key@) == Some(v@.map_values(|e: Option<String>| opt_text(e))),
            None => json_member_strings_of(text@, key@) is None,
        },
{
    let value: serde_json::Value = serde_json::from_str(text).ok()?;
    let items = value.get(key)?.as_array()?;
    Some(items.iter().map(|e| e.as_str().map(|s| s.to_string())).collect())
}

/// The system clock's offset from the Unix epoch (`SystemTime::now().duration_since(UNIX_EPOCH)`),
/// as its whole seconds and its sub-second nanoseconds (`as_secs`, `subsec_nanos`, which is below
/// one billion); `None` when the clock reads before the epoch. The value depends on the clock, so
/// nothing more is promised of it.
#[verifier::external_body]
pub(crate) fn system_unix_time() -> (r: Option<(u64, u32)>)
    ensures
        r matches Some(t) ==> t.1 < 1_000_000_000,
{
    std::time::SystemTime::now().duration_since(std::time::UNIX_EPOCH).ok().map(
        |d| (d.as_secs(), d.subsec_nanos()),
    )
}


/// How serde_json writes one character inside a string literal: `"` and `\` behind a backslash;
/// backspace, tab, line feed, form feed and carriage return as `\b`, `\t`, `\n`, `\f`, `\r`; the
/// other controls below U+0020 as `\u00` and two lower-case hex digits; any other character as
/// itself.
pub open spec fn json_escape(c: char) -> Seq<char> {
    if c == '"' {
        seq!['\\', '"']
    } else if c == '\\' {
        seq!['\\', '\\']
    } else if c == '\u{8}' {
        seq!['\\', 'b']
    } else if c == '\t' {
        seq!['\\', 't']
    } else if c == '\n' {
        seq!['\\', 'n']
    } else if c == '\u{c}' {
        seq!['\\', 'f']
    } else if c == '\r' {
        seq!['\\', 'r']
    } else if (c as int) < 0x20 {
        seq!['\\', 'u', '0', '0', hex_digit(c as int / 16), hex_digit(c as int % 16)]
    } else {
        seq![c]
    }
}

/// The JSON string literal for `s`: in double quotes, each character written as [`json_escape`]
/// says.
pub open spec fn json_quoted_text(s: Seq<char>) -> Seq<char> {
    seq!['"'] + s.map_values(|c: char| json_escape(c)).flatten() + seq!['"']
}

/// `serde_json::Value::String(s)` written out with its `Display` impl (compact JSON), which
/// escapes by serde_json's `ESCAPE` table.
#[verifier::external_body]
pub(crate) fn json_quoted(s: &str) -> (r: String)
    ensures
        r@ == json_quoted_text(s@),
{
    serde_json::Value::String(s.to_string()).to_string()
}


/// The strings of a JSON text that is an array of strings; `None` for any other text.
pub uninterp spec fn json_string_array_of(text: Seq<char>) -> Option<Seq<Seq<char>>>;

/// `serde_json::from_str::<Vec<String>>(text)`, with its error dropped.
#[verifier::external_body]
pub(crate) fn json_string_array(text: &str) -> (r: Option<Vec<String>>)
    ensures
        match r {
            Some(v) => json_string_array_of(text@) == Some(v.deep_view()),
            None => json_string_array_of(text@) is None,
        },
{
    serde_json::from_str::<Vec<String>>(text).ok()
}

/// The RFC 3339 text, in UTC with a `Z` and whole seconds, of the instant `secs` seconds after
/// the Unix epoch; `None` when the instant is outside the range chrono represents.
pub uninterp spec fn rfc3339_utc_secs_of(secs: i64) -> Option<Seq<char>>;

/// `chrono::DateTime::from_timestamp(secs, 0)`, written with
/// `to_rfc3339_opts(SecondsFormat::Secs, true)`. `from_timestamp` gives a date exactly when the
/// day `secs` falls on lies between chrono's earliest and latest dates, and writing RFC 3339 text
/// never fails.
#[verifier::external_body]
pub(crate) fn rfc3339_utc_secs(secs: i64) -> (r: Option<String>)
    ensures
        match r {
            Some(v) => rfc3339_utc_secs_of(secs) == Some(v@),
            None => rfc3339_utc_secs_of(secs) is None,
        },
        r is Some <==> chrono_min_secs() <= secs <= chrono_max_secs(),
{
    chrono::DateTime::from_timestamp(secs, 0).map(|t| t.to_rfc3339_opts(chrono::SecondsFormat::Secs, true))
}


/// The text the bytes spell in UTF-8; `None` when they are not valid UTF-8.
pub uninterp spec fn utf8_text_of(bytes: Seq<u8>) -> Option<Seq<char>>;

/// `std::str::from_utf8`, with its error dropped.
#[verifier::external_body]
pub(crate) fn utf8_text(bytes: &[u8]) -> (r: Option<String>)
    ensures
        match r {
            Some(t) => utf8_text_of(bytes@) == Some(t@),
            None => utf8_text_of(bytes@) is None,
        },
{
    std::str::from_utf8(bytes).ok().map(|s| s.to_string())
}


/// Whether `text` is a JSON document.
pub uninterp spec fn json_valid_of(text: Seq<char>) -> bool;

/// `serde_json::from_str::<serde_json::Value>(text).is_ok()`.
#[verifier::external_body]
pub(crate) fn json_valid(text: &str) -> (r: bool)
    ensures
        r == json_valid_of(text@),
{
    serde_json::from_str::<serde_json::Value>(text).is_ok()
}

/// The record value a DAG-CBOR block decodes to: `serde_ipld_dagcbor::from_slice::<Ipld>` read as
/// a [`RecordValue`] (maps in key order, lists, strings, CID links by their text, any other value
/// as `Other`); `None` when the bytes are not DAG-CBOR.
pub uninterp spec fn dag_cbor_record(bytes: Seq<u8>) -> Option<RecordValue>;

/// `serde_ipld_dagcbor::from_slice::<Ipld>(bytes)`, with its error dropped, the value converted
/// variant by variant.
#[verifier::external_body]
pub(crate) fn decode_record_block(bytes: &[u8]) -> (r: Option<RecordValue>)
    ensures
        r == dag_cbor_record(bytes@),
{
    serde_ipld_dagcbor::from_slice::<ipld_core::ipld::Ipld>(bytes).ok().map(ipld_record_value)
}

/// An `Ipld` value as a [`RecordValue`], one arm per variant: a map's entries (in the
/// `BTreeMap`'s key order) and a list's items converted in turn, a string moved, a link as its
/// CID text (`Cid`'s `Display`), any other variant as `Other`.
#[verifier::external_body]
fn ipld_record_value(ipld: ipld_core::ipld::Ipld) -> RecordValue {
    match ipld {
        ipld_core::ipld::Ipld::Map(m) => RecordValue::Object(m.into_iter().map(|(k, v)| (k, ipld_record_value(v))).collect()),
        ipld_core::ipld::Ipld::List(items) => RecordValue::List(items.into_iter().map(ipld_record_value).collect()),
        ipld_core::ipld::Ipld::String(t) => RecordValue::Text(t),
        ipld_core::ipld::Ipld::Link(cid) => RecordValue::Link(cid.to_string()),
        _ => RecordValue::Other,
    }
}

} // verus!
