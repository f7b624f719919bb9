//! Random identifiers: the bytes drawn for a UUID, and the shape of the UUID and base64url texts
//! built from random bytes.

use vstd::prelude::*;
use crate::boundary::{
    base64url_char, base64url_text, hex_digit, is_base64url_char, is_lower_hex, random_bytes, uuid_hex,
    uuid_hyphenated, uuid_v4_bytes,
};

verus! {

/// Sixteen fresh random bytes; `None` when the random source fails.
pub fn random_16() -> (r: Option<[u8; 16]>)
    ensures
        r matches Some(a) ==> a@.len() == 16,
{
    match random_bytes(16) {
        None => None,
        Some(v) => Some(
            [
                v[0], v[1], v[2], v[3], v[4], v[5], v[6], v[7], v[8], v[9], v[10], v[11], v[12],
                v[13], v[14], v[15],
            ],
        ),
    }
}

proof fn lemma_hex_digit(n: int)
    requires
        0 <= n < 16,
    ensures
        is_lower_hex(hex_digit(n)),
{
}

/// The simple form of a random UUID is 32 lower-case hex digits with the version digit `4` at 12.
pub proof fn lemma_uuid_hex_shape(b: Seq<u8>)
    requires
        b.len() == 16,
    ensures
        uuid_hex(uuid_v4_bytes(b)).len() == 32,
        forall|i: int| 0 <= i < 32 ==> is_lower_hex(#[trigger] uuid_hex(uuid_v4_bytes(b))[i]),
        uuid_hex(uuid_v4_bytes(b))[12] == '4',
{
    let v = uuid_v4_bytes(b);
    assert forall|i: int| 0 <= i < 32 implies is_lower_hex(#[trigger] uuid_hex(v)[i]) by {
        let x: u8 = v[i / 2];
        assert(x >> 4u8 < 16) by (bit_vector);
        assert(x & 0x0f < 16) by (bit_vector);
        lemma_hex_digit((x >> 4u8) as int);
        lemma_hex_digit((x & 0x0f) as int);
    }
    let y: u8 = b[6];
    assert(((y & 0x0f) | 0x40) >> 4u8 == 4) by (bit_vector);
    assert(v[6] == (y & 0x0f) | 0x40);
}

/// The hyphenated form of a random UUID: 36 characters, hyphens at 8, 13, 18 and 23, lower-case
/// hex digits elsewhere, the version digit `4` at 14.
pub proof fn lemma_uuid_hyphenated_shape(b: Seq<u8>)
    requires
        b.len() == 16,
    ensures
        uuid_hyphenated(uuid_hex(uuid_v4_bytes(b))).len() == 36,
        forall|i: int| 0 <= i < 36 ==> if i == 8 || i == 13 || i == 18 || i == 23 {
            #[trigger] uuid_hyphenated(uuid_hex(uuid_v4_bytes(b)))[i] == '-'
        } else {
            is_lower_hex(uuid_hyphenated(uuid_hex(uuid_v4_bytes(b)))[i])
        },
        uuid_hyphenated(uuid_hex(uuid_v4_bytes(b)))[14] == '4',
{
    let h = uuid_hex(uuid_v4_bytes(b));
    lemma_uuid_hex_shape(b);
    let s = uuid_hyphenated(h);
    assert forall|i: int| 0 <= i < 36 implies if i == 8 || i == 13 || i == 18 || i == 23 {
        #[trigger] s[i] == '-'
    } else {
        is_lower_hex(s[i])
    } by {
        if i < 8 {
            assert(s[i] == h[i]);
        } else if 8 < i < 13 {
            assert(s[i] == h[i - 1]);
        } else if 13 < i < 18 {
            assert(s[i] == h[i - 2]);
        } else if 18 < i < 23 {
            assert(s[i] == h[i - 3]);
        } else if 23 < i {
            assert(s[i] == h[i - 4]);
        }
    }
    assert(s[14] == h[12]);
}

proof fn lemma_base64url_char(v: u8)
    requires
        v < 64,
    ensures
        is_base64url_char(base64url_char(v)),
{
}

/// The unpadded base64url text of `n` bytes holds `ceil(4n / 3)` characters, each from the
/// URL-safe alphabet.
pub proof fn lemma_base64url_text_shape(b: Seq<u8>)
    ensures
        base64url_text(b).len() == (4 * b.len() + 2) / 3,
        forall|i: int| 0 <= i < base64url_text(b).len() ==> is_base64url_char(#[trigger] base64url_text(b)[i]),
    decreases b.len(),
{
    if b.len() > 0 {
        let x: u8 = b[0];
        let y: u8 = if b.len() > 1 { b[1] } else { 0 };
        let z: u8 = if b.len() > 2 { b[2] } else { 0 };
        assert(x >> 2u8 < 64) by (bit_vector);
        assert((x & 3) << 4u8 < 64) by (bit_vector);
        assert(((x & 3) << 4u8) | (y >> 4u8) < 64) by (bit_vector);
        assert((y & 15) << 2u8 < 64) by (bit_vector);
        assert(((y & 15) << 2u8) | (z >> 6u8) < 64) by (bit_vector);
        assert(z & 63 < 64) by (bit_vector);
        lemma_base64url_char(x >> 2u8);
        lemma_base64url_char((x & 3) << 4u8);
        lemma_base64url_char(((x & 3) << 4u8) | (y >> 4u8));
        lemma_base64url_char((y & 15) << 2u8);
        lemma_base64url_char(((y & 15) << 2u8) | (z >> 6u8));
        lemma_base64url_char(z & 63);
        if b.len() > 2 {
            lemma_base64url_text_shape(b.skip(3));
            let t = base64url_text(b);
            let head = seq![
                base64url_char(x >> 2u8),
                base64url_char(((x & 3) << 4u8) | (y >> 4u8)),
                base64url_char(((y & 15) << 2u8) | (z >> 6u8)),
                base64url_char(z & 63),
            ];
            assert(t == head + base64url_text(b.skip(3)));
            assert forall|i: int| 0 <= i < t.len() implies is_base64url_char(#[trigger] t[i]) by {
                if i >= 4 {
                    assert(t[i] == base64url_text(b.skip(3))[i - 4]);
                }
            }
        }
    }
}

} // verus!
