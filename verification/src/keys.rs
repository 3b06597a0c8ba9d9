//! The mnemonic/seed deriver: a BIP-39 mnemonic is turned into a 64-byte
//! seed, and per batch index a hierarchical child signing key is derived at
//! a fixed path of three hardened segments and one final non-hardened
//! segment equal to the index.

use vstd::prelude::*;

use crate::errors::GenError;

verus! {

/// Whether a phrase passes BIP-39 wordlist and checksum validation.
pub uninterp spec fn mnemonic_ok(phrase: Seq<char>) -> bool;

/// The 64-byte BIP-39 seed of a valid phrase, with an empty passphrase.
pub uninterp spec fn seed_of(phrase: Seq<char>) -> Seq<u8>;

/// Relies on `bip39::Mnemonic::parse_in_normalized` (English wordlist and
/// checksum validation) and `bip39::Mnemonic::to_seed_normalized` with an
/// empty passphrase (the PBKDF2 seed, 64 bytes): both are functions of the
/// phrase alone.
#[verifier::external_body]
fn mnemonic_seed_raw(phrase: &str) -> (r: Option<[u8; 64]>)
    ensures
        r is Some <==> mnemonic_ok(phrase@),
        r matches Some(seed) ==> seed@ == seed_of(phrase@) && seed@.len() == 64,
{
    match bip39::Mnemonic::parse_in_normalized(bip39::Language::English, phrase) {
        Ok(m) => Some(m.to_seed_normalized("")),
        Err(_) => None,
    }
}

/// Derive the seed of `phrase`; a phrase that fails wordlist or checksum
/// validation is rejected.
pub fn derive_seed(phrase: &str) -> (r: Result<[u8; 64], GenError>)
    ensures
        r is Ok <==> mnemonic_ok(phrase@),
        r matches Ok(seed) ==> seed@ == seed_of(phrase@),
        r is Err ==> r == Err::<[u8; 64], GenError>(GenError::InvalidMnemonic),
{
    match mnemonic_seed_raw(phrase) {
        Some(seed) => Ok(seed),
        None => Err(GenError::InvalidMnemonic),
    }
}

/// What hierarchical derivation returns for a seed, a base path, and a final
/// non-hardened child index: the child's 32-byte secret scalar, or nothing
/// where the derivation is invalid.
pub uninterp spec fn hd_child_of(seed: Seq<u8>, base_path: Seq<char>, index: u32) -> Option<
    Seq<u8>,
>;

/// Relies on `bip32::DerivationPath`'s `FromStr`, `bip32::ChildNumber::new`
/// (non-hardened, fails on an index with the hardened bit set), and
/// `bip32::XPrv::derive_from_path` with `private_key().to_bytes()`: the
/// derived scalar is a function of the seed and the full path alone.
#[verifier::external_body]
fn derive_child_raw(seed: &[u8; 64], base_path: &str, index: u32) -> (r: Option<[u8; 32]>)
    ensures
        r is Some <==> hd_child_of(seed@, base_path@, index) is Some,
        r matches Some(key) ==> Some(key@) == hd_child_of(seed@, base_path@, index),
{
    let base: bip32::DerivationPath = match base_path.parse() {
        Ok(p) => p,
        Err(_) => return None,
    };
    let child = match bip32::ChildNumber::new(index, false) {
        Ok(c) => c,
        Err(_) => return None,
    };
    let mut path = base;
    path.push(child);
    match bip32::XPrv::derive_from_path(seed, &path) {
        Ok(xprv) => Some(xprv.private_key().to_bytes().into()),
        Err(_) => None,
    }
}

/// The fixed base path: three hardened segments, then one non-hardened
/// segment per batch index is appended.
pub open spec fn base_derivation_path() -> Seq<char> {
    "m/44'/60'/0'/0"@
}

/// The child signing scalar owned by batch index `index`.
pub open spec fn child_key_spec(seed: Seq<u8>, index: u32) -> Option<Seq<u8>> {
    hd_child_of(seed, base_derivation_path(), index)
}

/// Derive the child signing key for one batch index. Deterministic: the
/// result is a function of the seed and the index.
pub fn derive_child_key(seed: &[u8; 64], index: u32) -> (r: Result<[u8; 32], GenError>)
    ensures
        r is Ok <==> child_key_spec(seed@, index) is Some,
        r matches Ok(key) ==> Some(key@) == child_key_spec(seed@, index),
        r is Err ==> r == Err::<[u8; 32], GenError>(GenError::DerivationError),
{
    match derive_child_raw(seed, "m/44'/60'/0'/0", index) {
        Some(key) => Ok(key),
        None => Err(GenError::DerivationError),
    }
}

/// Derivation determinism: any two outcomes of child-key derivation for the
/// same seed and index are the same key, however many times and in whatever
/// order the derivations run.
pub proof fn lemma_derivation_deterministic(
    seed: Seq<u8>,
    index: u32,
    a: Option<Seq<u8>>,
    b: Option<Seq<u8>>,
)
    requires
        a == child_key_spec(seed, index),
        b == child_key_spec(seed, index),
    ensures
        a == b,
{
}

} // verus!
