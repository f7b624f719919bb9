//! Six-character claim/user codes drawn from an upper-case alphanumeric alphabet.

use vstd::prelude::*;
use crate::boundary::random_bytes;
use crate::text::push_char;

verus! {

/// The length of every generated code.
pub const CODE_LEN: usize = 6;

/// The size of the code alphabet `A–Z0–9`.
pub const CHARSET_LEN: u8 = 36;

/// The `i`-th character of the alphabet `ABCDEFGHIJKLMNOPQRSTUVWXYZ0123456789`.
pub open spec fn charset_char(i: int) -> char {
    if i < 26 {
        (65 + i) as char
    } else {
        (48 + i - 26) as char
    }
}

/// The code character a random byte selects: `CHARSET[b % 36]`.
pub open spec fn code_char(b: u8) -> char {
    charset_char((b % 36) as int)
}

/// Whether `c` is an upper-case ASCII letter or an ASCII digit.
pub open spec fn is_code_char(c: char) -> bool {
    ('A' <= c && c <= 'Z') || ('0' <= c && c <= '9')
}

/// A well-formed code: six upper-case alphanumeric characters.
pub open spec fn is_code(s: Seq<char>) -> bool {
    s.len() == CODE_LEN && forall|i: int| 0 <= i < s.len() ==> is_code_char(#[trigger] s[i])
}

/// The code that random bytes `bytes` select, one character per byte.
pub open spec fn code_of_bytes(bytes: Seq<u8>) -> Seq<char> {
    Seq::new(bytes.len(), |i: int| code_char(bytes[i]))
}

pub(crate) fn charset_at(i: u8) -> (c: char)
    requires
        i < 36,
    ensures
        c == charset_char(i as int),
        is_code_char(c),
{
    if i < 26 {
        (65 + i) as char
    } else {
        (48 + (i - 26)) as char
    }
}

/// Maps random bytes to code characters (`CHARSET[b % 36]` for each byte `b`).
pub fn code_from_bytes(bytes: &[u8]) -> (r: String)
    ensures
        r@ == code_of_bytes(bytes@),
        forall|i: int| 0 <= i < r@.len() ==> is_code_char(#[trigger] r@[i]),
{
    let mut r = String::new();
    let mut i: usize = 0;
    while i < bytes.len()
        invariant
            i <= bytes@.len(),
            r@ == code_of_bytes(bytes@.take(i as int)),
            forall|j: int| 0 <= j < r@.len() ==> is_code_char(#[trigger] r@[j]),
        decreases bytes@.len() - i,
    {
        let c = charset_at(bytes[i] % CHARSET_LEN);
        push_char(&mut r, c);
        assert(code_of_bytes(bytes@.take(i + 1)) =~= code_of_bytes(bytes@.take(i as int)).push(c));
        i = i + 1;
    }
    assert(bytes@.take(bytes@.len() as int) =~= bytes@);
    r
}

/// Generate a single 6-character uppercase alphanumeric code; `None` when the random source
/// fails.
pub fn generate_code() -> (r: Option<String>)
    ensures
        r matches Some(c) ==> is_code(c@),
{
    match random_bytes(CODE_LEN) {
        Some(bytes) => Some(code_from_bytes(bytes.as_slice())),
        None => None,
    }
}

/// The position of a code character in the alphabet (the inverse of [`charset_char`]).
pub open spec fn charset_index(c: char) -> int {
    if 'A' <= c && c <= 'Z' {
        c as int - 65
    } else {
        c as int - 48 + 26
    }
}

/// `36^n`.
pub open spec fn pow36(n: nat) -> nat
    decreases n,
{
    if n == 0 {
        1
    } else {
        36 * pow36((n - 1) as nat)
    }
}

/// How many distinct codes there are: `36^6`.
pub open spec fn code_space() -> nat {
    2176782336
}

/// The last `n` base-36 digits of `k`, most significant first, each written as the alphabet
/// character of that position.
pub open spec fn numbered_chars(k: nat, n: nat) -> Seq<char>
    decreases n,
{
    if n == 0 {
        Seq::empty()
    } else {
        numbered_chars(k / 36, (n - 1) as nat).push(charset_char((k % 36) as int))
    }
}

/// The `k`-th code in alphabet order (`AAAAAA` is the 0th).
pub open spec fn numbered_code(k: nat) -> Seq<char> {
    numbered_chars(k, CODE_LEN as nat)
}

/// The number the characters of `s` spell in base 36.
pub open spec fn code_number(s: Seq<char>) -> int
    decreases s.len(),
{
    if s.len() == 0 {
        0
    } else {
        code_number(s.drop_last()) * 36 + charset_index(s.last())
    }
}

proof fn lemma_charset_round_trip(d: int)
    requires
        0 <= d < 36,
    ensures
        charset_index(charset_char(d)) == d,
        is_code_char(charset_char(d)),
{
}

proof fn lemma_numbered_chars(k: nat, n: nat)
    ensures
        numbered_chars(k, n).len() == n,
        forall|i: int| 0 <= i < n ==> is_code_char(#[trigger] numbered_chars(k, n)[i]),
        code_number(numbered_chars(k, n)) == k % pow36(n),
    decreases n,
{
    if n > 0 {
        let m = (n - 1) as nat;
        lemma_numbered_chars(k / 36, m);
        let s = numbered_chars(k, n);
        assert(s.drop_last() =~= numbered_chars(k / 36, m));
        lemma_charset_round_trip((k % 36) as int);
        assert(pow36(m) > 0) by {
            lemma_pow36_positive(m);
        }
        vstd::arithmetic::div_mod::lemma_mod_breakdown(k as int, 36, pow36(m) as int);
    }
}

proof fn lemma_pow36_positive(n: nat)
    ensures
        pow36(n) > 0,
    decreases n,
{
    if n > 0 {
        lemma_pow36_positive((n - 1) as nat);
    }
}

/// Every numbered code is a well-formed code, and codes numbered below `code_space()` are
/// pairwise distinct.
pub(crate) proof fn lemma_numbered_codes(k1: nat, k2: nat)
    requires
        k1 < code_space(),
        k2 < code_space(),
    ensures
        is_code(numbered_code(k1)),
        numbered_code(k1) == numbered_code(k2) ==> k1 == k2,
{
    lemma_code_space();
    lemma_numbered_chars(k1, CODE_LEN as nat);
    lemma_numbered_chars(k2, CODE_LEN as nat);
    vstd::arithmetic::div_mod::lemma_small_mod(k1, code_space());
    vstd::arithmetic::div_mod::lemma_small_mod(k2, code_space());
}

/// The last `n` base-36 digits of `k` as code characters.
fn numbered_chars_of(k: u64, n: usize) -> (r: String)
    requires
        n <= CODE_LEN,
    ensures
        r@ == numbered_chars(k as nat, n as nat),
    decreases n,
{
    if n == 0 {
        String::new()
    } else {
        let mut s = numbered_chars_of(k / 36, n - 1);
        let c = charset_at((k % 36) as u8);
        push_char(&mut s, c);
        s
    }
}

/// `code_space()` is `36^6`.
proof fn lemma_code_space()
    ensures
        code_space() == pow36(CODE_LEN as nat),
{
    reveal_with_fuel(pow36, 7);
}

/// The `k`-th code in alphabet order.
pub(crate) fn code_numbered(k: u64) -> (r: String)
    ensures
        r@ == numbered_code(k as nat),
{
    numbered_chars_of(k, CODE_LEN)
}

} // verus!
