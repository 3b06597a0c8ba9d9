//! The nullifier signer: Ethereum personal-message framing of the nullifier
//! bytes, Keccak-256 hashing, and a deterministic secp256k1 ECDSA signature
//! whose 64 bytes are `r` followed by `s`.

use vstd::prelude::*;
use vstd::slice::slice_to_vec;

use crate::bytebuf::push_bytes;
use crate::decfmt::{dec_of, push_decimal};
use crate::errors::GenError;

verus! {

/// The literal prefix `"\x19Ethereum Signed Message:\n"` of the
/// personal-message signing convention.
pub open spec fn eth_prefix() -> Seq<u8> {
    seq![
        0x19u8, 0x45, 0x74, 0x68, 0x65, 0x72, 0x65, 0x75, 0x6d, 0x20, 0x53, 0x69, 0x67, 0x6e,
        0x65, 0x64, 0x20, 0x4d, 0x65, 0x73, 0x73, 0x61, 0x67, 0x65, 0x3a, 0x0a,
    ]
}

/// The signed preimage: prefix, then the decimal ASCII length of `data`,
/// then `data` itself.
pub open spec fn eth_preimage_of(data: Seq<u8>) -> Seq<u8> {
    eth_prefix() + dec_of(data.len()) + data
}

/// Build the personal-message preimage for `data`.
pub fn eth_personal_preimage(data: &[u8]) -> (r: Vec<u8>)
    ensures
        r@ == eth_preimage_of(data@),
{
    let mut out: Vec<u8> = Vec::new();
    out.push(0x19);
    out.push(0x45);
    out.push(0x74);
    out.push(0x68);
    out.push(0x65);
    out.push(0x72);
    out.push(0x65);
    out.push(0x75);
    out.push(0x6d);
    out.push(0x20);
    out.push(0x53);
    out.push(0x69);
    out.push(0x67);
    out.push(0x6e);
    out.push(0x65);
    out.push(0x64);
    out.push(0x20);
    out.push(0x4d);
    out.push(0x65);
    out.push(0x73);
    out.push(0x73);
    out.push(0x61);
    out.push(0x67);
    out.push(0x65);
    out.push(0x3a);
    out.push(0x0a);
    proof {
        assert(out@ =~= eth_prefix());
    }
    push_decimal(&mut out, data.len() as u64);
    push_bytes(&mut out, data);
    proof {
        assert(out@ =~= eth_preimage_of(data@));
    }
    out
}

/// What Keccak-256 returns for a given byte string.
pub uninterp spec fn keccak256_of(data: Seq<u8>) -> Seq<u8>;

/// Relies on `web3::signing::keccak256`: the Keccak-256 digest, 32 bytes,
/// a function of the input bytes alone.
#[verifier::external_body]
fn keccak256_raw(data: &[u8]) -> (r: [u8; 32])
    ensures
        r@ == keccak256_of(data@),
{
    web3::signing::keccak256(data)
}

/// The value of a big-endian byte string as an unsigned integer.
pub open spec fn be_bytes_as_nat(s: Seq<u8>) -> nat
    decreases s.len(),
{
    if s.len() == 0 {
        0
    } else {
        be_bytes_as_nat(s.drop_last()) * 256 + s.last() as nat
    }
}

/// The order of the secp256k1 group.
pub open spec fn secp256k1_order() -> nat {
    0xFFFFFFFFFFFFFFFFFFFFFFFFFFFFFFFEBAAEDCE6AF48A03BBFD25E8CD0364141nat
}

/// The 32-byte strings that are valid secp256k1 secret scalars: nonzero and
/// below the group order.
pub open spec fn scalar_valid(k: Seq<u8>) -> bool {
    &&& k.len() == 32
    &&& 0 < be_bytes_as_nat(k)
    &&& be_bytes_as_nat(k) < secp256k1_order()
}

/// What deterministic (RFC 6979) ECDSA over secp256k1 returns for a key and a
/// 32-byte digest: the 64 bytes `r` then `s`, each big-endian.
pub uninterp spec fn ecdsa_rs_of(key: Seq<u8>, digest: Seq<u8>) -> Seq<u8>;

/// Relies on `secp256k1::SecretKey::from_secret_bytes`, which accepts exactly
/// the scalars in `[1, order - 1]`, and on `secp256k1::ecdsa::sign` with
/// `Signature::serialize_compact`: an RFC 6979 deterministic signature, a
/// function of the key and the digest alone, serialized as `r` then `s`.
#[verifier::external_body]
fn sign_digest_raw(key: &[u8; 32], digest: &[u8; 32]) -> (r: Option<[u8; 64]>)
    ensures
        r is Some <==> scalar_valid(key@),
        r matches Some(sig) ==> sig@ == ecdsa_rs_of(key@, digest@) && sig@.len() == 64,
{
    let sk = match secp256k1::SecretKey::from_secret_bytes(*key) {
        Ok(k) => k,
        Err(_) => return None,
    };
    let msg = secp256k1::Message::from_digest(*digest);
    Some(secp256k1::ecdsa::sign(msg, &sk).serialize_compact())
}

/// Sign `nullifier_bytes` with the 32-byte secret scalar `key`: hash the
/// personal-message preimage with Keccak-256 and sign the digest; the
/// signature is the 64 bytes `r` then `s`, the recovery id is discarded.
pub fn create_signature(key: &[u8; 32], nullifier_bytes: &[u8]) -> (r: Result<Vec<u8>, GenError>)
    ensures
        scalar_valid(key@) ==> (r matches Ok(sig) && sig@ == ecdsa_rs_of(
            key@,
            keccak256_of(eth_preimage_of(nullifier_bytes@)),
        ) && sig@.len() == 64),
        !scalar_valid(key@) ==> r == Err::<Vec<u8>, GenError>(GenError::SigningError),
{
    let preimage = eth_personal_preimage(nullifier_bytes);
    let digest = keccak256_raw(preimage.as_slice());
    match sign_digest_raw(key, &digest) {
        Some(sig) => Ok(slice_to_vec(sig.as_slice())),
        None => Err(GenError::SigningError),
    }
}

} // verus!
