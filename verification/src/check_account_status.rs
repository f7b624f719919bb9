//! `GET /xrpc/com.atproto.server.checkAccountStatus` — migration progress for the caller's
//! account: activation, DID document, stored blocks, the records its repo indexes, and the blobs
//! its records reference against those imported.
//!
//! Record values are walked as [`RecordValue`] trees; the blob references found are kept as a
//! list without repeats, so its length is the number of distinct referenced blobs.

use vstd::prelude::*;
use crate::boundary::{dag_cbor_record, decode_record_block};
use crate::error::{ApiError, ErrorCode, fails_with, is_api_error};
use crate::text::{contains_char, owned, str_eq};

verus! {

/// The status readout.
#[derive(Debug)]
pub struct CheckAccountStatusResponse {
    pub activated: bool,
    pub valid_did: bool,
    pub repo_commit: Option<String>,
    pub repo_rev: Option<String>,
    pub stored_blocks: i64,
    pub indexed_records: usize,
    /// Always 0: no private state is kept.
    pub private_state_values: usize,
    pub expected_blobs: usize,
    pub imported_blobs: i64,
}

/// A decoded record value, as far as blob references are concerned: maps (in key order, keys
/// distinct), lists, strings, CID links (by their text), and every other scalar.
#[derive(Debug)]
pub enum RecordValue {
    Object(Vec<(String, RecordValue)>),
    List(Vec<RecordValue>),
    Text(String),
    Link(String),
    Other,
}

/// The value a map holds under `key` (keys of a map are distinct, so the first match is it).
pub open spec fn map_get(entries: Seq<(String, RecordValue)>, key: Seq<char>) -> Option<RecordValue>
    decreases entries.len(),
{
    if entries.len() == 0 {
        None
    } else if entries[0].0@ == key {
        Some(entries[0].1)
    } else {
        map_get(entries.drop_first(), key)
    }
}

/// The CID a map names as a blob reference of its own: with `"$type": "blob"`, its `ref` is a
/// link, or (the raw JSON form) a map whose `$link` is a link.
pub open spec fn own_blob_ref(entries: Seq<(String, RecordValue)>) -> Option<Seq<char>> {
    match map_get(entries, "$type"@) {
        Some(RecordValue::Text(t)) => if t@ == "blob"@ {
            match map_get(entries, "ref"@) {
                Some(RecordValue::Link(c)) => Some(c@),
                Some(RecordValue::Object(inner)) => match map_get(inner@, "$link"@) {
                    Some(RecordValue::Link(c)) => Some(c@),
                    _ => None,
                },
                _ => None,
            }
        } else {
            None
        },
        _ => None,
    }
}

/// `v` references the blob `c`: a map names it as its own reference, or some value nested in a
/// map or list does (a blob can sit inside an embed).
pub open spec fn references_blob(v: RecordValue, c: Seq<char>) -> bool
    decreases v,
{
    match v {
        RecordValue::Object(entries) => own_blob_ref(entries@) == Some(c) || entries_reference_blob(entries@, c),
        RecordValue::List(items) => items_reference_blob(items@, c),
        _ => false,
    }
}

/// Some value of the map entries `s` references the blob `c`.
pub open spec fn entries_reference_blob(s: Seq<(String, RecordValue)>, c: Seq<char>) -> bool
    decreases s,
{
    if s.len() == 0 {
        false
    } else {
        entries_reference_blob(s.drop_last(), c) || references_blob(s.last().1, c)
    }
}

/// Some item of the list `s` references the blob `c`.
pub open spec fn items_reference_blob(s: Seq<RecordValue>, c: Seq<char>) -> bool
    decreases s,
{
    if s.len() == 0 {
        false
    } else {
        items_reference_blob(s.drop_last(), c) || references_blob(s.last(), c)
    }
}

/// Some item of `s` references `c` exactly when one at some position does: every item is walked.
proof fn lemma_items_reference_blob(s: Seq<RecordValue>, c: Seq<char>)
    ensures
        items_reference_blob(s, c) <==> exists|i: int| 0 <= i < s.len() && #[trigger] references_blob(s[i], c),
    decreases s.len(),
{
    if s.len() > 0 {
        let p = s.drop_last();
        lemma_items_reference_blob(p, c);
        if items_reference_blob(p, c) {
            let i = choose|i: int| 0 <= i < p.len() && #[trigger] references_blob(p[i], c);
            assert(s[i] == p[i]);
            assert(references_blob(s[i], c));
        } else if references_blob(s.last(), c) {
            assert(references_blob(s[s.len() - 1], c));
        }
        if exists|i: int| 0 <= i < s.len() && #[trigger] references_blob(s[i], c) {
            let i = choose|i: int| 0 <= i < s.len() && #[trigger] references_blob(s[i], c);
            if i < s.len() - 1 {
                assert(p[i] == s[i]);
                assert(references_blob(p[i], c));
            } else {
                assert(s[i] == s.last());
            }
        }
    }
}

/// Some value of the entries `s` references `c` exactly when one at some position does: every
/// entry is walked.
proof fn lemma_entries_reference_blob(s: Seq<(String, RecordValue)>, c: Seq<char>)
    ensures
        entries_reference_blob(s, c) <==> exists|i: int| 0 <= i < s.len() && #[trigger] references_blob(s[i].1, c),
    decreases s.len(),
{
    if s.len() > 0 {
        let p = s.drop_last();
        lemma_entries_reference_blob(p, c);
        if entries_reference_blob(p, c) {
            let i = choose|i: int| 0 <= i < p.len() && #[trigger] references_blob(p[i].1, c);
            assert(s[i] == p[i]);
            assert(references_blob(s[i].1, c));
        } else if references_blob(s.last().1, c) {
            assert(references_blob(s[s.len() - 1].1, c));
        }
        if exists|i: int| 0 <= i < s.len() && #[trigger] references_blob(s[i].1, c) {
            let i = choose|i: int| 0 <= i < s.len() && #[trigger] references_blob(s[i].1, c);
            if i < s.len() - 1 {
                assert(p[i] == s[i]);
                assert(references_blob(p[i].1, c));
            } else {
                assert(s[i] == s.last());
            }
        }
    }
}

/// A record value references exactly the blobs that some part of it names: a list references
/// what any of its items does (not just the first), and a map what any of its values does, plus
/// the blob the map itself is a reference to; a string, link or other scalar references none.
pub proof fn every_nested_blob_is_referenced(v: RecordValue, c: Seq<char>)
    ensures
        v matches RecordValue::List(items) ==> (references_blob(v, c) <==> exists|i: int|
            0 <= i < items@.len() && #[trigger] references_blob(items@[i], c)),
        v matches RecordValue::Object(entries) ==> (references_blob(v, c) <==> (own_blob_ref(entries@)
            == Some(c) || exists|i: int| 0 <= i < entries@.len() && #[trigger] references_blob(entries@[i].1, c))),
        (v is Text || v is Link || v is Other) ==> !references_blob(v, c),
{
    match v {
        RecordValue::List(items) => lemma_items_reference_blob(items@, c),
        RecordValue::Object(entries) => lemma_entries_reference_blob(entries@, c),
        _ => {},
    }
}

/// The texts of a list of strings.
pub open spec fn texts(v: Seq<String>) -> Seq<Seq<char>> {
    v.map_values(|s: String| s@)
}

fn lookup<'a>(entries: &'a Vec<(String, RecordValue)>, key: &str) -> (r: Option<&'a RecordValue>)
    ensures
        match r {
            Some(x) => map_get(entries@, key@) == Some(*x),
            None => map_get(entries@, key@) is None,
        },
{
    let mut i: usize = 0;
    assert(entries@.skip(0) =~= entries@);
    while i < entries.len()
        invariant
            i <= entries@.len(),
            map_get(entries@, key@) == map_get(entries@.skip(i as int), key@),
        decreases entries@.len() - i,
    {
        assert(entries@.skip(i as int).drop_first() =~= entries@.skip(i + 1));
        if str_eq(entries[i].0.as_str(), key) {
            return Some(&entries[i].1);
        }
        i = i + 1;
    }
    None
}

/// Add `c` to a list without repeats.
fn insert_distinct(out: &mut Vec<String>, c: &str)
    requires
        texts(old(out)@).no_duplicates(),
    ensures
        texts(final(out)@).no_duplicates(),
        forall|x: Seq<char>| texts(final(out)@).contains(x) <==> (texts(old(out)@).contains(x) || x == c@),
{
    let mut i: usize = 0;
    while i < out.len()
        invariant
            i <= out@.len(),
            out@ == old(out)@,
            texts(old(out)@).no_duplicates(),
            forall|j: int| 0 <= j < i ==> out@[j]@ != c@,
        decreases out@.len() - i,
    {
        if str_eq(out[i].as_str(), c) {
            assert(texts(out@)[i as int] == c@);
            return;
        }
        i = i + 1;
    }
    let ghost before = texts(out@);
    assert(before == texts(old(out)@));
    out.push(owned(c));
    assert(texts(out@) =~= before.push(c@));
    assert forall|x: Seq<char>| texts(out@).contains(x) <==> (texts(old(out)@).contains(x) || x == c@) by {
        if texts(out@).contains(x) {
            let k = choose|k: int| 0 <= k < texts(out@).len() && texts(out@)[k] == x;
            if k < before.len() {
                assert(before[k] == x);
            }
        }
        if x == c@ {
            assert(texts(out@)[before.len() as int] == x);
        }
        if before.contains(x) {
            let k = choose|k: int| 0 <= k < before.len() && before[k] == x;
            assert(texts(out@)[k] == x);
        }
    }
}

/// `acc` with every blob `v` references added, still free of repeats.
fn gather_blob_cids(v: &RecordValue, acc: Vec<String>) -> (r: Vec<String>)
    requires
        texts(acc@).no_duplicates(),
    ensures
        texts(r@).no_duplicates(),
        forall|c: Seq<char>| #[trigger] texts(r@).contains(c) <==> (texts(acc@).contains(c) || references_blob(*v, c)),
    decreases v,
{
    let mut out = acc;
    match v {
        RecordValue::Object(entries) => {
            match lookup(entries, "$type") {
                Some(RecordValue::Text(t)) => {
                    if str_eq(t.as_str(), "blob") {
                        match lookup(entries, "ref") {
                            Some(RecordValue::Link(c)) => {
                                insert_distinct(&mut out, c.as_str());
                            },
                            Some(RecordValue::Object(inner)) => {
                                match lookup(inner, "$link") {
                                    Some(RecordValue::Link(c)) => {
                                        insert_distinct(&mut out, c.as_str());
                                    },
                                    _ => {},
                                }
                            },
                            _ => {},
                        }
                    }
                },
                _ => {},
            }
            let ghost after_own = texts(out@);
            assert(forall|c: Seq<char>| after_own.contains(c) <==> (texts(acc@).contains(c) || own_blob_ref(entries@) == Some(c)));
            let mut i: usize = 0;
            assert(entries@.take(0).len() == 0);
            while i < entries.len()
                invariant
                    i <= entries@.len(),
                    *v is Object,
                    (*v)->Object_0 == *entries,
                    texts(out@).no_duplicates(),
                    forall|c: Seq<char>| #[trigger] texts(out@).contains(c) <==> (after_own.contains(c)
                        || entries_reference_blob(entries@.take(i as int), c)),
                decreases entries@.len() - i,
            {
                proof {
                    assert(decreases_to!(*v => (*v)->Object_0));
                    assert(decreases_to!((*v)->Object_0 => entries@));
                    assert(decreases_to!(entries@ => entries@[i as int]));
                    assert(decreases_to!(entries@[i as int] => entries@[i as int].1));
                }
                let ghost prev = out@;
                let val = &entries[i].1;
                out = gather_blob_cids(val, out);
                proof {
                    let t = entries@.take(i + 1);
                    assert(t.drop_last() =~= entries@.take(i as int));
                    assert(t.last() == entries@[i as int]);
                    assert forall|c: Seq<char>| #[trigger] texts(out@).contains(c) <==> (after_own.contains(c)
                        || entries_reference_blob(t, c)) by {
                        assert(texts(out@).contains(c) <==> (texts(prev).contains(c) || references_blob(*val, c)));
                        assert(entries_reference_blob(t, c) == (entries_reference_blob(entries@.take(i as int), c)
                            || references_blob(entries@[i as int].1, c)));
                    }
                }
                i = i + 1;
            }
            assert(entries@.take(entries@.len() as int) =~= entries@);
        },
        RecordValue::List(items) => {
            let mut i: usize = 0;
            assert(items@.take(0).len() == 0);
            while i < items.len()
                invariant
                    i <= items@.len(),
                    *v is List,
                    (*v)->List_0 == *items,
                    texts(out@).no_duplicates(),
                    forall|c: Seq<char>| #[trigger] texts(out@).contains(c) <==> (texts(acc@).contains(c)
                        || items_reference_blob(items@.take(i as int), c)),
                decreases items@.len() - i,
            {
                proof {
                    assert(decreases_to!(*v => (*v)->List_0));
                    assert(decreases_to!((*v)->List_0 => items@));
                    assert(decreases_to!(items@ => items@[i as int]));
                }
                let ghost prev = out@;
                let val = &items[i];
                out = gather_blob_cids(val, out);
                proof {
                    let t = items@.take(i + 1);
                    assert(t.drop_last() =~= items@.take(i as int));
                    assert(t.last() == items@[i as int]);
                    assert forall|c: Seq<char>| #[trigger] texts(out@).contains(c) <==> (texts(acc@).contains(c)
                        || items_reference_blob(t, c)) by {
                        assert(texts(out@).contains(c) <==> (texts(prev).contains(c) || references_blob(*val, c)));
                        assert(items_reference_blob(t, c) == (items_reference_blob(items@.take(i as int), c)
                            || references_blob(items@[i as int], c)));
                    }
                }
                i = i + 1;
            }
            assert(items@.take(items@.len() as int) =~= items@);
        },
        _ => {},
    }
    out
}

/// Add to `out` every blob `v` references, keeping `out` free of repeats.
pub fn collect_blob_cids(v: &RecordValue, out: &mut Vec<String>)
    requires
        texts(old(out)@).no_duplicates(),
    ensures
        texts(final(out)@).no_duplicates(),
        forall|c: Seq<char>| texts(final(out)@).contains(c) <==> (texts(old(out)@).contains(c) || references_blob(*v, c)),
{
    let mut acc: Vec<String> = Vec::new();
    std::mem::swap(&mut acc, out);
    let r = gather_blob_cids(v, acc);
    *out = r;
}


/// A tree key names a record when it has the form `<collection>/<rkey>`.
pub fn is_record_key(key: &str) -> (r: bool)
    ensures
        r == key@.contains('/'),
{
    contains_char(key, '/')
}

/// The reads a status readout makes, each with the message its failure is answered with.
#[derive(Clone, Copy, Debug, PartialEq, Eq, Structural)]
pub enum StatusRead {
    RepoStatus,
    DidDocument,
    BlockStats,
    BlobMetrics,
    RootCid,
    OpenRepo,
    IterateTree,
    ReadBlock,
    /// The tree names a block the store does not hold.
    MissingBlock,
    DecodeRecord,
}

/// The message a failed read is answered with.
pub open spec fn status_read_message(r: StatusRead) -> Seq<char> {
    match r {
        StatusRead::RepoStatus => "failed to get account status"@,
        StatusRead::DidDocument => "failed to check DID document"@,
        StatusRead::BlockStats => "failed to get block stats"@,
        StatusRead::BlobMetrics => "failed to get blob metrics"@,
        StatusRead::RootCid => "invalid repo root CID"@,
        StatusRead::OpenRepo => "failed to open repo"@,
        StatusRead::IterateTree => "failed to iterate MST"@,
        StatusRead::ReadBlock => "failed to read record block"@,
        StatusRead::MissingBlock => "repo integrity error"@,
        StatusRead::DecodeRecord => "failed to decode record"@,
    }
}

/// A failed read is a server error with its own message.
pub fn status_read_failed(r: StatusRead) -> (e: ApiError)
    ensures
        is_api_error(e, ErrorCode::InternalError, status_read_message(r)),
{
    match r {
        StatusRead::RepoStatus => ApiError::new(ErrorCode::InternalError, "failed to get account status"),
        StatusRead::DidDocument => ApiError::new(ErrorCode::InternalError, "failed to check DID document"),
        StatusRead::BlockStats => ApiError::new(ErrorCode::InternalError, "failed to get block stats"),
        StatusRead::BlobMetrics => ApiError::new(ErrorCode::InternalError, "failed to get blob metrics"),
        StatusRead::RootCid => ApiError::new(ErrorCode::InternalError, "invalid repo root CID"),
        StatusRead::OpenRepo => ApiError::new(ErrorCode::InternalError, "failed to open repo"),
        StatusRead::IterateTree => ApiError::new(ErrorCode::InternalError, "failed to iterate MST"),
        StatusRead::ReadBlock => ApiError::new(ErrorCode::InternalError, "failed to read record block"),
        StatusRead::MissingBlock => ApiError::new(ErrorCode::InternalError, "repo integrity error"),
        StatusRead::DecodeRecord => ApiError::new(ErrorCode::InternalError, "failed to decode record"),
    }
}

/// The caller's account must exist.
pub fn account_found<T>(row: Option<T>) -> (r: Result<T, ApiError>)
    ensures
        match row {
            Some(x) => r == Ok::<T, ApiError>(x),
            None => fails_with(r, ErrorCode::NotFound, "account not found"@),
        },
{
    match row {
        Some(x) => Ok(x),
        None => Err(ApiError::new(ErrorCode::NotFound, "account not found")),
    }
}

/// What reading one record's block gave.
#[derive(Debug)]
pub enum RecordRead {
    ReadFailed,
    Missing,
    Undecodable,
    Decoded(RecordValue),
}

/// What reading a record block gave: a failed read, a block the store lacks, and a block that is
/// not DAG-CBOR are told apart from the value a decoded block holds.
pub fn read_record(block: Result<Option<Vec<u8>>, ()>) -> (r: RecordRead)
    ensures
        match block {
            Err(_) => r is ReadFailed,
            Ok(None) => r is Missing,
            Ok(Some(b)) => match dag_cbor_record(b@) {
                Some(v) => r == RecordRead::Decoded(v),
                None => r is Undecodable,
            },
        },
{
    match block {
        Err(_) => RecordRead::ReadFailed,
        Ok(None) => RecordRead::Missing,
        Ok(Some(bytes)) => match decode_record_block(bytes.as_slice()) {
            Some(v) => RecordRead::Decoded(v),
            None => RecordRead::Undecodable,
        },
    }
}

/// The running count of a repo walk: records seen and the distinct blobs they reference.
#[derive(Debug)]
pub struct RecordTally {
    pub records: usize,
    pub blobs: Vec<String>,
}

impl RecordTally {
    /// Well formed: the referenced blobs are listed without repeats.
    pub open spec fn wf(self) -> bool {
        texts(self.blobs@).no_duplicates()
    }

    /// The empty tally.
    pub fn new() -> (t: RecordTally)
        ensures
            t.wf(),
            t.records == 0,
            t.blobs@.len() == 0,
    {
        RecordTally { records: 0, blobs: Vec::new() }
    }

    /// Count one record (a key of the form `<collection>/<rkey>`) with what reading its block
    /// gave: a failed read, a block the store lacks, or an undecodable one stops the walk with
    /// its error; a decoded value adds the blobs it references.
    pub fn record(&mut self, read: RecordRead) -> (r: Result<(), ApiError>)
        requires
            old(self).wf(),
            old(self).records < usize::MAX,
        ensures
            final(self).wf(),
            final(self).records == old(self).records + 1,
            match read {
                RecordRead::ReadFailed => fails_with(r, ErrorCode::InternalError, "failed to read record block"@),
                RecordRead::Missing => fails_with(r, ErrorCode::InternalError, "repo integrity error"@),
                RecordRead::Undecodable => fails_with(r, ErrorCode::InternalError, "failed to decode record"@),
                RecordRead::Decoded(v) => r is Ok && forall|c: Seq<char>| texts(final(self).blobs@).contains(c) <==> (
                texts(old(self).blobs@).contains(c) || references_blob(v, c)),
            },
    {
        self.records = self.records + 1;
        match read {
            RecordRead::ReadFailed => Err(status_read_failed(StatusRead::ReadBlock)),
            RecordRead::Missing => Err(status_read_failed(StatusRead::MissingBlock)),
            RecordRead::Undecodable => Err(status_read_failed(StatusRead::DecodeRecord)),
            RecordRead::Decoded(v) => {
                let mut acc: Vec<String> = Vec::new();
                std::mem::swap(&mut acc, &mut self.blobs);
                self.blobs = gather_blob_cids(&v, acc);
                Ok(())
            },
        }
    }

    /// `(record count, distinct referenced blobs)`.
    pub fn counts(&self) -> (r: (usize, usize))
        ensures
            r.0 == self.records,
            r.1 == self.blobs@.len(),
    {
        (self.records, self.blobs.len())
    }
}

/// The readout. A repo-less account has no records and references no blobs.
pub fn account_status_response(
    activated: bool,
    valid_did: bool,
    repo_commit: Option<String>,
    repo_rev: Option<String>,
    stored_blocks: i64,
    walked: Option<(usize, usize)>,
    imported_blobs: i64,
) -> (r: CheckAccountStatusResponse)
    ensures
        r.activated == activated,
        r.valid_did == valid_did,
        r.repo_commit == repo_commit,
        r.repo_rev == repo_rev,
        r.stored_blocks == stored_blocks,
        r.private_state_values == 0,
        r.imported_blobs == imported_blobs,
        match walked {
            Some(w) => r.indexed_records == w.0 && r.expected_blobs == w.1,
            None => r.indexed_records == 0 && r.expected_blobs == 0,
        },
{
    let (indexed_records, expected_blobs) = match walked {
        Some(w) => w,
        None => (0, 0),
    };
    CheckAccountStatusResponse {
        activated,
        valid_did,
        repo_commit,
        repo_rev,
        stored_blocks,
        indexed_records,
        private_state_values: 0,
        expected_blobs,
        imported_blobs,
    }
}

} // verus!
