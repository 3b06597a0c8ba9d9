//! Lowercase hexadecimal rendering of byte strings, used for the `memo` and
//! `extraData` fields of the wire format.

use vstd::prelude::*;

verus! {

/// The lowercase hex digit for a value below 16.
pub open spec fn hex_digit_of(n: int) -> u8
    recommends
        0 <= n < 16,
{
    if n < 10 {
        (0x30 + n) as u8
    } else {
        (0x57 + n) as u8
    }
}

/// Lowercase hex encoding of a byte string: two digits per byte, high nibble first.
pub open spec fn hex_of(bytes: Seq<u8>) -> Seq<u8>
    decreases bytes.len(),
{
    if bytes.len() == 0 {
        Seq::empty()
    } else {
        seq![
            hex_digit_of(bytes[0] as int / 16),
            hex_digit_of(bytes[0] as int % 16),
        ] + hex_of(bytes.drop_first())
    }
}

/// The hex rendering of a byte string is exactly twice as long: a 64-byte
/// signature renders as 128 hex characters.
pub proof fn lemma_hex_of_len(bytes: Seq<u8>)
    ensures
        hex_of(bytes).len() == 2 * bytes.len(),
    decreases bytes.len(),
{
    if bytes.len() > 0 {
        lemma_hex_of_len(bytes.drop_first());
    }
}

/// The value of one lowercase hex digit, where it is one.
pub open spec fn hex_val_of(c: u8) -> Option<int> {
    if 0x30 <= c <= 0x39 {
        Some((c - 0x30) as int)
    } else if 0x61 <= c <= 0x66 {
        Some((c - 0x57) as int)
    } else {
        None
    }
}

/// Decode a lowercase hex string back to its bytes; a string that is not
/// well-formed lowercase hex of even length decodes to nothing.
pub open spec fn unhex_of(s: Seq<u8>) -> Option<Seq<u8>>
    decreases s.len(),
{
    if s.len() == 0 {
        Some(Seq::empty())
    } else if s.len() == 1 {
        None
    } else {
        match (hex_val_of(s[0]), hex_val_of(s[1]), unhex_of(s.skip(2))) {
            (Some(h), Some(l), Some(rest)) => Some(seq![(h * 16 + l) as u8] + rest),
            _ => None,
        }
    }
}

/// Hex round trip: decoding the encoding of any byte string gives back
/// exactly those bytes, so the hex fields of the wire format determine
/// their bytes.
pub proof fn lemma_hex_round_trip(bytes: Seq<u8>)
    ensures
        unhex_of(hex_of(bytes)) == Some(bytes),
    decreases bytes.len(),
{
    if bytes.len() == 0 {
        assert(bytes =~= Seq::<u8>::empty());
    } else {
        lemma_hex_round_trip(bytes.drop_first());
        let b = bytes[0];
        let s = hex_of(bytes);
        assert(s[0] == hex_digit_of(b as int / 16));
        assert(s[1] == hex_digit_of(b as int % 16));
        assert(s.skip(2) =~= hex_of(bytes.drop_first()));
        assert(hex_val_of(hex_digit_of(b as int / 16)) == Some(b as int / 16));
        assert(hex_val_of(hex_digit_of(b as int % 16)) == Some(b as int % 16));
        assert(seq![((b as int / 16) * 16 + b as int % 16) as u8] + bytes.drop_first() =~= bytes);
    }
}

/// A hex rendering never contains a quote byte, so a hex-valued JSON string
/// field ends exactly at the next quote.
pub proof fn lemma_hex_no_quote(bytes: Seq<u8>)
    ensures
        forall|i: int| 0 <= i < hex_of(bytes).len() ==> hex_of(bytes)[i] != 0x22,
    decreases bytes.len(),
{
    if bytes.len() > 0 {
        lemma_hex_no_quote(bytes.drop_first());
        assert forall|i: int| 0 <= i < hex_of(bytes).len() implies hex_of(bytes)[i]
            != 0x22 by {
            if i >= 2 {
                assert(hex_of(bytes)[i] == hex_of(bytes.drop_first())[i - 2]);
            }
        }
    }
}

/// Hex encoding is injective: equal renderings come from equal bytes.
pub proof fn lemma_hex_injective(a: Seq<u8>, b: Seq<u8>)
    requires
        hex_of(a) == hex_of(b),
    ensures
        a == b,
{
    lemma_hex_round_trip(a);
    lemma_hex_round_trip(b);
}

/// Encode `bytes` as lowercase hex, two digits per byte.
pub fn bytes_to_hex(bytes: &[u8]) -> (r: Vec<u8>)
    ensures
        r@ == hex_of(bytes@),
{
    let mut out: Vec<u8> = Vec::new();
    let mut i: usize = 0;
    proof {
        assert(bytes@.skip(0) =~= bytes@);
    }
    while i < bytes.len()
        invariant
            i <= bytes.len(),
            hex_of(bytes@) =~= out@ + hex_of(bytes@.skip(i as int)),
        decreases bytes.len() - i,
    {
        let b = bytes[i];
        let hi: u8 = b / 16;
        let lo: u8 = b % 16;
        out.push(if hi < 10 { 0x30 + hi } else { 0x57 + hi });
        out.push(if lo < 10 { 0x30 + lo } else { 0x57 + lo });
        proof {
            assert(bytes@.skip(i as int).drop_first() =~= bytes@.skip(i + 1));
        }
        i += 1;
    }
    proof {
        assert(bytes@.skip(bytes@.len() as int) =~= Seq::<u8>::empty());
        assert(out@ + Seq::<u8>::empty() =~= out@);
    }
    out
}

} // verus!
