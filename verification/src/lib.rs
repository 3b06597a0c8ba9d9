//! A batch test-data generator for a shielded-transaction pool: from a
//! mnemonic seed and a transaction count it deterministically derives one
//! signing identity per index, builds a deposit descriptor against a test
//! pool state, obtains a zero-knowledge proof, signs the descriptor's
//! nullifier with an Ethereum personal-message signature, and renders the
//! ordered batch as one JSON array for a downstream relayer.
//!
//! The zero-knowledge circuit, the proving backend and the pool
//! account/state model are opaque external collaborators, reached through a
//! small set of trusted calls; everything around them — key-derivation
//! plumbing, the signature preimage and its byte layout, the batch
//! ordering, and the wire format — is verified.

pub mod batch;
mod bytebuf;
pub mod decfmt;
pub mod errors;
pub mod ethsign;
pub mod hexfmt;
pub mod keys;
pub mod pool;
pub mod record;
pub mod wire;

pub use batch::assemble_record;
pub use batch::generate_batch;
pub use batch::generate_record;
pub use decfmt::u64_to_decimal;
pub use errors::GenError;
pub use ethsign::create_signature;
pub use ethsign::eth_personal_preimage;
pub use hexfmt::bytes_to_hex;
pub use keys::derive_child_key;
pub use keys::derive_seed;
pub use pool::build_deposit_tx;
pub use pool::parse_parameters;
pub use pool::DepositTx;
pub use pool::PoolParameters;
pub use pool::TransferParts;
pub use record::ProofWithInputs;
pub use record::TxDataRequest;
pub use wire::to_wire;
