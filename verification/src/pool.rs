//! The pool account builder and proof generator interface: a deposit
//! transaction descriptor is requested from the external pool layer, its
//! nullifier canonicalized to 32 big-endian bytes, and the proving backend
//! renders a proof and its public-input list for the wire format.
//!
//! The external layer's field elements, witnesses and parameter sets cannot
//! be declared to the verifier (their declarations need bounds on external
//! traits), so they are carried in opaque wrapper structs and only cross
//! between the trusted calls below.

use vstd::prelude::*;

use libzeropool_rs::client::state::State;
use libzeropool_rs::client::{TxType, UserAccount};
use libzeropool_rs::libzeropool::circuit::tx::c_transfer;
use libzeropool_rs::libzeropool::fawkes_crypto::backend::bellman_groth16::engines::Bn256;
use libzeropool_rs::libzeropool::fawkes_crypto::backend::bellman_groth16::prover::prove;
use libzeropool_rs::libzeropool::fawkes_crypto::backend::bellman_groth16::Parameters;
use libzeropool_rs::libzeropool::fawkes_crypto::engines::bn256::{Fr, Fs};
use libzeropool_rs::libzeropool::fawkes_crypto::ff_uint::{Num, Uint};
use libzeropool_rs::libzeropool::fawkes_crypto::rand::Rng;
use libzeropool_rs::libzeropool::native::boundednum::BoundedNum;
use libzeropool_rs::libzeropool::native::tx::{TransferPub, TransferSec};
use libzeropool_rs::libzeropool::POOL_PARAMS;
use libzeropool_rs::random::CustomRng;

use crate::errors::GenError;
use crate::wire::json_balanced;

verus! {

/// An opaque trusted-setup parameter set for the proving backend
/// (`fawkes_crypto`'s bellman_groth16 `Parameters` over Bn256); loaded once,
/// read-only afterwards.
#[verifier::external_body]
pub struct PoolParameters {
    inner: Parameters<Bn256>,
}

/// An opaque spending scalar of the pool's scalar field (`Num<Fs>`); it
/// authorizes the pool spend and is unrelated to the on-chain signing key.
#[verifier::external_body]
struct SpendKey {
    inner: Num<Fs>,
}

/// The opaque public data and secret witness of one descriptor
/// (`TransferPub<Fr>`, `TransferSec<Fr>`), carried from the pool layer to
/// the proving backend.
#[verifier::external_body]
pub struct TransferParts {
    public: TransferPub<Fr>,
    secret: TransferSec<Fr>,
}

/// A deposit transaction descriptor: the public data and secret witness for
/// the proving backend, the nullifier canonicalized to 32 big-endian bytes,
/// and the memo bytes.
pub struct DepositTx {
    /// Public data and secret witness, carried opaquely for the prover.
    pub parts: TransferParts,
    /// The descriptor's nullifier as its canonical unsigned value,
    /// big-endian, at the field's fixed width of 32 bytes.
    pub nullifier_be: Vec<u8>,
    /// The descriptor's memo bytes.
    pub memo: Vec<u8>,
}

impl DepositTx {
    /// The nullifier is canonicalized to the field's fixed byte width and
    /// the memo is never empty for a deposit.
    pub open spec fn wf(&self) -> bool {
        &&& self.nullifier_be@.len() == 32
        &&& self.memo@.len() > 0
    }
}

/// Relies on `libzeropool_rs::random::CustomRng`, a getrandom-backed
/// generator, to sample a fresh spending scalar; nothing is assumed of the
/// value.
#[verifier::external_body]
fn sample_spend_key() -> SpendKey {
    let mut rng = CustomRng;
    SpendKey { inner: rng.gen() }
}

/// Requests a Deposit descriptor with fee zero, deposit amount one base
/// unit and no outputs. Relies on `libzeropool_rs::client`'s
/// `State::init_test`, `UserAccount::new` and `UserAccount::create_tx` with
/// the crate's global pool parameters; on `TransactionData`, whose
/// `public.nullifier` is the descriptor's nullifier and whose `memo` (tx
/// data then ciphertext, both non-empty for a deposit) is returned as
/// built; and on `ff_uint`'s `to_uint().0.to_big_endian()` giving the
/// canonical unsigned value as 32 big-endian bytes for this field.
#[verifier::external_body]
fn build_deposit_raw(spend_key: SpendKey) -> (r: Option<DepositTx>)
    ensures
        r matches Some(tx) ==> tx.wf(),
{
    let state = State::init_test(POOL_PARAMS.clone());
    let account = UserAccount::new(spend_key.inner, state, POOL_PARAMS.clone());
    let deposit = TxType::Deposit {
        fee: BoundedNum::new_unchecked(Num::ZERO),
        deposit_amount: BoundedNum::new_unchecked(Num::ONE),
        outputs: vec![],
    };
    let data = account.create_tx(deposit, None, None).ok()?;
    let nullifier_be = data.public.nullifier.to_uint().0.to_big_endian();
    let parts = TransferParts { public: data.public, secret: data.secret };
    Some(DepositTx { parts, nullifier_be, memo: data.memo })
}

/// Build one deposit descriptor against a fresh test pool state, with a
/// freshly sampled spending scalar. The external pool layer draws its own
/// randomness, so two calls may differ; whatever comes back is a
/// well-formed descriptor.
pub fn build_deposit_tx() -> (r: Result<DepositTx, GenError>)
    ensures
        r matches Ok(tx) ==> tx.wf(),
        r is Err ==> r == Err::<DepositTx, GenError>(GenError::TxBuildError),
{
    let sk = sample_spend_key();
    match build_deposit_raw(sk) {
        Some(tx) => Ok(tx),
        None => Err(GenError::TxBuildError),
    }
}

/// Produces a proof for one descriptor. Relies on fawkes_crypto's
/// bellman_groth16 `prove` with libzeropool's transfer circuit
/// (`c_transfer`), and on `serde_json::to_vec` to render the proof object
/// (a struct, so a JSON object) and the public-input list (decimal strings,
/// so a JSON array); any JSON rendering is non-empty and structurally
/// balanced. The prover draws its own randomness, so nothing more is
/// assumed of the bytes. Caveat, disclosed because no `requires` can reach
/// it through the opaque parameter type: on a parameter set that parses but
/// belongs to a different circuit, `prove` aborts the process (it unwraps
/// the backend error and asserts on its cached-constraint tracker) instead
/// of returning; the program boundary must fence that call off.
#[verifier::external_body]
fn tx_proof_raw(params: &PoolParameters, parts: &TransferParts) -> (r: Option<(Vec<u8>, Vec<u8>)>)
    ensures
        r matches Some(p) ==> p.0@.len() > 0 && p.0@.first() == 0x7b && p.0@.last() == 0x7d
            && json_balanced(p.0@) && p.1@.len() > 0 && p.1@.first() == 0x5b && p.1@.last()
            == 0x5d && json_balanced(p.1@),
{
    let circuit = |p, s| {
        c_transfer(&p, &s, &*POOL_PARAMS);
    };
    let (inputs, proof) = prove(&params.inner, &parts.public, &parts.secret, circuit);
    let proof_json = match serde_json::to_vec(&proof) {
        Ok(v) => v,
        Err(_) => return None,
    };
    let inputs_json = match serde_json::to_vec(&inputs) {
        Ok(v) => v,
        Err(_) => return None,
    };
    Some((proof_json, inputs_json))
}

/// Obtain the proof and public-input list for one descriptor, rendered as
/// JSON byte strings for the wire format: whatever the prover's randomness,
/// a success hands back one non-empty balanced JSON object and one
/// non-empty balanced JSON array, ready to splice verbatim.
pub fn tx_proof(params: &PoolParameters, parts: &TransferParts) -> (r: Result<
    (Vec<u8>, Vec<u8>),
    GenError,
>)
    ensures
        r matches Ok(p) ==> p.0@.len() > 0 && p.0@.first() == 0x7b && p.0@.last() == 0x7d
            && json_balanced(p.0@) && p.1@.len() > 0 && p.1@.first() == 0x5b && p.1@.last()
            == 0x5d && json_balanced(p.1@),
        r is Err ==> r == Err::<(Vec<u8>, Vec<u8>), GenError>(GenError::ProofError),
{
    match tx_proof_raw(params, parts) {
        Some(p) => Ok(p),
        None => Err(GenError::ProofError),
    }
}

/// The byte strings that parse as a trusted-setup parameter set.
pub uninterp spec fn params_blob_wf(data: Seq<u8>) -> bool;

/// Relies on fawkes_crypto's bellman_groth16 `Parameters::read` with point
/// checks enabled: a deterministic parse of the bytes alone, succeeding
/// exactly on well-formed parameter blobs.
#[verifier::external_body]
fn read_parameters_raw(data: &[u8]) -> (r: Option<PoolParameters>)
    ensures
        r is Some <==> params_blob_wf(data@),
{
    let mut reader: &[u8] = data;
    match Parameters::read(&mut reader, true, true) {
        Ok(p) => Some(PoolParameters { inner: p }),
        Err(_) => None,
    }
}

/// Parse the trusted-setup parameter blob, read once at startup. Succeeds
/// exactly on well-formed blobs; anything else is fatal before any batch
/// work starts.
pub fn parse_parameters(data: &[u8]) -> (r: Result<PoolParameters, GenError>)
    ensures
        r is Ok <==> params_blob_wf(data@),
        r is Err ==> r == Err::<PoolParameters, GenError>(GenError::BadParameters),
{
    match read_parameters_raw(data) {
        Some(p) => Ok(p),
        None => Err(GenError::BadParameters),
    }
}

} // verus!
