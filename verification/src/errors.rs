//! Error taxonomy of the generator: startup failures, per-stage batch
//! failures, and serialization failures. Any batch-stage error aborts the
//! whole batch; there is no per-item skip or retry.

use vstd::prelude::*;

verus! {

/// The stages at which generation can fail.
#[derive(Clone, Copy, Debug, PartialEq, Eq, Structural)]
pub enum GenError {
    /// The mnemonic failed wordlist or checksum validation.
    InvalidMnemonic,
    /// Hierarchical derivation produced no child key at the requested index.
    DerivationError,
    /// The pool layer rejected the deposit descriptor request.
    TxBuildError,
    /// The proving backend or the rendering of its output failed.
    ProofError,
    /// The derived signing scalar is not a valid secp256k1 secret key.
    SigningError,
    /// The trusted-setup parameter blob could not be parsed.
    BadParameters,
}

} // verus!
