//! Decimal ASCII rendering of unsigned integers, used for the length part of
//! the Ethereum personal-message prefix and for derivation path segments.

use vstd::prelude::*;

verus! {

/// The ASCII digit for a value below 10.
pub open spec fn dec_digit_of(n: int) -> u8
    recommends
        0 <= n < 10,
{
    (0x30 + n) as u8
}

/// Decimal ASCII rendering of `n`, most significant digit first, no leading
/// zeros (a single `0` for zero).
pub open spec fn dec_of(n: nat) -> Seq<u8>
    decreases n,
{
    if n < 10 {
        seq![dec_digit_of(n as int)]
    } else {
        dec_of(n / 10) + seq![dec_digit_of((n % 10) as int)]
    }
}

/// Append the decimal rendering of `n` to `out`.
pub fn push_decimal(out: &mut Vec<u8>, n: u64)
    ensures
        final(out)@ == old(out)@ + dec_of(n as nat),
    decreases n,
{
    if n < 10 {
        out.push(0x30 + n as u8);
        proof {
            assert(out@ =~= old(out)@ + dec_of(n as nat));
        }
    } else {
        push_decimal(out, n / 10);
        out.push(0x30 + (n % 10) as u8);
        proof {
            assert(out@ =~= old(out)@ + dec_of(n as nat));
        }
    }
}

/// The decimal rendering of `n` as a fresh byte string.
pub fn u64_to_decimal(n: u64) -> (r: Vec<u8>)
    ensures
        r@ == dec_of(n as nat),
{
    let mut out: Vec<u8> = Vec::new();
    push_decimal(&mut out, n);
    proof {
        assert(Seq::<u8>::empty() + dec_of(n as nat) =~= dec_of(n as nat));
    }
    out
}

} // verus!
