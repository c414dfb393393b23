//! Exact decimal and hexadecimal text building over ASCII byte buffers.

use vstd::prelude::*;

verus! {

/// The characters spelled by a sequence of ASCII bytes.
pub open spec fn bytes_to_chars(s: Seq<u8>) -> Seq<char> {
    s.map(|_i: int, b: u8| b as char)
}

/// The ASCII byte of a single decimal digit.
pub open spec fn digit_byte(d: int) -> u8 {
    (48 + d) as u8
}

/// Decimal spelling of a non-negative number, most significant digit
/// first, no padding.
pub open spec fn dec_bytes(n: int) -> Seq<u8>
    decreases n,
{
    if n < 10 {
        seq![digit_byte(n)]
    } else {
        dec_bytes(n / 10).push(digit_byte(n % 10))
    }
}

/// Decimal spelling zero-padded on the left to `k` digits; digits beyond
/// the `k` least significant are dropped.
pub open spec fn dec_bytes_pad(n: int, k: nat) -> Seq<u8>
    decreases k,
{
    if k == 0 {
        Seq::empty()
    } else {
        dec_bytes_pad(n / 10, (k - 1) as nat).push(digit_byte(n % 10))
    }
}

/// The ASCII byte of an uppercase hexadecimal digit.
pub open spec fn hex_digit_byte(d: int) -> u8 {
    if d < 10 {
        (48 + d) as u8
    } else {
        (55 + d) as u8
    }
}

/// Uppercase hexadecimal spelling zero-padded on the left to `k` digits.
pub open spec fn hex_bytes_pad(n: int, k: nat) -> Seq<u8>
    decreases k,
{
    if k == 0 {
        Seq::empty()
    } else {
        hex_bytes_pad(n / 16, (k - 1) as nat).push(hex_digit_byte(n % 16))
    }
}

/// Every decimal spelling is made of ASCII digit bytes.
pub proof fn lemma_dec_bytes_ascii(n: int)
    requires
        n >= 0,
    ensures
        forall|i: int|
            0 <= i < dec_bytes(n).len() ==> 48 <= #[trigger] dec_bytes(n)[i] <= 57,
    decreases n,
{
    if n < 10 {
        assert(dec_bytes(n)[0] == digit_byte(n));
    } else {
        lemma_dec_bytes_ascii(n / 10);
        assert forall|i: int| 0 <= i < dec_bytes(n).len() implies 48 <= #[trigger] dec_bytes(n)[i]
            <= 57 by {
            if i < dec_bytes(n / 10).len() {
                assert(dec_bytes(n)[i] == dec_bytes(n / 10)[i]);
            } else {
                assert(dec_bytes(n)[i] == digit_byte(n % 10));
            }
        }
    }
}

/// Every padded decimal spelling is made of ASCII digit bytes.
pub proof fn lemma_dec_bytes_pad_ascii(n: int, k: nat)
    requires
        n >= 0,
    ensures
        dec_bytes_pad(n, k).len() == k,
        forall|i: int|
            0 <= i < k ==> 48 <= #[trigger] dec_bytes_pad(n, k)[i] <= 57,
    decreases k,
{
    if k > 0 {
        lemma_dec_bytes_pad_ascii(n / 10, (k - 1) as nat);
    }
}

/// Every hexadecimal spelling is made of ASCII digit or uppercase letters.
pub proof fn lemma_hex_bytes_pad_ascii(n: int, k: nat)
    requires
        n >= 0,
    ensures
        hex_bytes_pad(n, k).len() == k,
        forall|i: int|
            0 <= i < k ==> (48 <= #[trigger] hex_bytes_pad(n, k)[i] <= 57 || 65 <= hex_bytes_pad(
                n,
                k,
            )[i] <= 70),
    decreases k,
{
    if k > 0 {
        lemma_hex_bytes_pad_ascii(n / 16, (k - 1) as nat);
    }
}

/// Relies on `String::from_utf8`: a buffer of ASCII bytes is valid UTF-8
/// and decodes to exactly one char per byte.
#[verifier::external_body]
pub fn ascii_to_string(v: Vec<u8>) -> (r: String)
    requires
        forall|i: int| 0 <= i < v@.len() ==> #[trigger] v@[i] < 128,
    ensures
        r@ == bytes_to_chars(v@),
{
    String::from_utf8(v).expect("buffer was ASCII")
}

/// Append the decimal spelling of `n`.
pub fn push_dec_u64(out: &mut Vec<u8>, n: u64)
    ensures
        final(out)@ == old(out)@ + dec_bytes(n as int),
    decreases n,
{
    if n >= 10 {
        push_dec_u64(out, n / 10);
    }
    out.push(48 + (n % 10) as u8);
    proof {
        assert(final(out)@ =~= old(out)@ + dec_bytes(n as int));
    }
}

/// Append the zero-padded `k`-digit decimal spelling of `n`.
pub fn push_dec_pad(out: &mut Vec<u8>, n: u64, k: u32)
    ensures
        final(out)@ == old(out)@ + dec_bytes_pad(n as int, k as nat),
    decreases k,
{
    if k == 0 {
        proof {
            assert(final(out)@ =~= old(out)@ + dec_bytes_pad(n as int, k as nat));
        }
        return ;
    }
    push_dec_pad(out, n / 10, k - 1);
    out.push(48 + (n % 10) as u8);
    proof {
        assert(final(out)@ =~= old(out)@ + dec_bytes_pad(n as int, k as nat));
    }
}

/// Append the zero-padded `k`-digit uppercase hexadecimal spelling of `n`.
pub fn push_hex_pad(out: &mut Vec<u8>, n: u64, k: u32)
    ensures
        final(out)@ == old(out)@ + hex_bytes_pad(n as int, k as nat),
    decreases k,
{
    if k == 0 {
        proof {
            assert(final(out)@ =~= old(out)@ + hex_bytes_pad(n as int, k as nat));
        }
        return ;
    }
    push_hex_pad(out, n / 16, k - 1);
    let d: u64 = n % 16;
    if d < 10 {
        out.push(48 + d as u8);
    } else {
        out.push(55 + d as u8);
    }
    proof {
        assert(final(out)@ =~= old(out)@ + hex_bytes_pad(n as int, k as nat));
    }
}

/// The decimal spelling of `n`, as a string.
pub fn dec_string(n: u64) -> (r: String)
    ensures
        r@ == bytes_to_chars(dec_bytes(n as int)),
{
    let mut buf: Vec<u8> = Vec::new();
    push_dec_u64(&mut buf, n);
    proof {
        lemma_dec_bytes_ascii(n as int);
    }
    ascii_to_string(buf)
}

} // verus!
