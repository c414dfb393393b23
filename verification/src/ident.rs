//! Event identifiers: eight uppercase hex digits drawn from a fresh
//! random UUID.

use vstd::prelude::*;
use crate::textfmt::{ascii_to_string, bytes_to_chars, hex_bytes_pad, lemma_hex_bytes_pad_ascii};

verus! {

/// Relies on `uuid::Uuid::new_v4`: a freshly generated random UUID,
/// returned as its 128-bit big-endian value.  Nothing is promised of the
/// value; it differs from call to call.
#[verifier::external_body]
fn random_uuid_value() -> u128 {
    uuid::Uuid::new_v4().as_u128()
}

/// A short opaque event identifier: the first eight hex digits of a
/// random UUID, uppercased.  Every outcome is eight ASCII characters,
/// each a digit or an uppercase `A` through `F`.
pub fn generate_short_id() -> (r: String)
    ensures
        r@.len() == 8,
        forall|i: int|
            0 <= i < 8 ==> (48 <= #[trigger] r@[i] as u32 <= 57 || 65 <= r@[i] as u32 <= 70),
{
    let v = random_uuid_value();
    let top: u64 = (v >> 96) as u64;
    let mut buf: Vec<u8> = Vec::new();
    crate::textfmt::push_hex_pad(&mut buf, top, 8);
    proof {
        lemma_hex_bytes_pad_ascii(top as int, 8);
    }
    let s = ascii_to_string(buf);
    proof {
        assert(s@ == bytes_to_chars(hex_bytes_pad(top as int, 8)));
        assert forall|i: int| 0 <= i < 8 implies (48 <= #[trigger] s@[i] as u32 <= 57
            || 65 <= s@[i] as u32 <= 70) by {
            assert(s@[i] == hex_bytes_pad(top as int, 8)[i] as char);
        }
    }
    s
}

} // verus!
