//! The batch orchestrator: for each index in order, derive the child
//! signing key, build a deposit descriptor, sign its nullifier with that
//! key, obtain the proof, and merge everything into one record. Any
//! single-index failure aborts the whole batch with the originating error.

use vstd::prelude::*;

use crate::errors::GenError;
use crate::ethsign::{create_signature, ecdsa_rs_of, eth_preimage_of, keccak256_of, scalar_valid};
use crate::keys::{child_key_spec, derive_child_key};
use crate::pool::{build_deposit_tx, tx_proof, DepositTx, PoolParameters};
use crate::record::{ProofWithInputs, TxDataRequest, TxDataRequestView};
use crate::wire::segments_wf;

verus! {

/// Signature binding: the record's `extra_data` is the deterministic ECDSA
/// signature, under the child key owned by `index`, of the Keccak-256
/// digest of the personal-message framing of the record's own nullifier —
/// never another record's. The nullifier is at its fixed 32-byte width, the
/// memo is non-empty, and the signature is 64 bytes.
pub open spec fn record_bound(rec: TxDataRequestView, seed: Seq<u8>, index: u32) -> bool {
    &&& match child_key_spec(seed, index) {
        Some(k) => scalar_valid(k) && rec.extra_data == ecdsa_rs_of(
            k,
            keccak256_of(eth_preimage_of(rec.nullifier_be)),
        ),
        None => false,
    }
    &&& rec.nullifier_be.len() == 32
    &&& rec.memo.len() > 0
    &&& rec.extra_data.len() == 64
}

/// In the wire format, a bound record's signature field renders as exactly
/// 128 hex characters, and its nullifier as 64.
pub proof fn lemma_bound_record_hex_widths(rec: TxDataRequestView, seed: Seq<u8>, index: u32)
    requires
        record_bound(rec, seed, index),
    ensures
        crate::hexfmt::hex_of(rec.extra_data).len() == 128,
        crate::hexfmt::hex_of(rec.nullifier_be).len() == 64,
{
    crate::hexfmt::lemma_hex_of_len(rec.extra_data);
    crate::hexfmt::lemma_hex_of_len(rec.nullifier_be);
}

/// Merge one descriptor, its signature and its rendered proof into a
/// record; every field is carried over unchanged.
pub fn assemble_record(
    tx: DepositTx,
    extra_data: Vec<u8>,
    proof_json: Vec<u8>,
    inputs_json: Vec<u8>,
) -> (r: TxDataRequest)
    ensures
        r@.memo == tx.memo@,
        r@.extra_data == extra_data@,
        r@.nullifier_be == tx.nullifier_be@,
        r@.proof.proof_json == proof_json@,
        r@.proof.inputs_json == inputs_json@,
{
    TxDataRequest {
        proof: ProofWithInputs { proof_json, inputs_json },
        memo: tx.memo,
        extra_data,
        nullifier_be: tx.nullifier_be,
    }
}

/// Generate the record owned by one batch index: derive the child key,
/// build a fresh deposit descriptor, sign its nullifier with the child key,
/// then obtain the proof.
pub fn generate_record(seed: &[u8; 64], index: u32, params: &PoolParameters) -> (r: Result<
    TxDataRequest,
    GenError,
>)
    ensures
        r matches Ok(rec) ==> record_bound(rec@, seed@, index) && segments_wf(rec@),
        r == Err::<TxDataRequest, GenError>(GenError::DerivationError) <==> child_key_spec(
            seed@,
            index,
        ) is None,
        r == Err::<TxDataRequest, GenError>(GenError::SigningError) ==> (match child_key_spec(
            seed@,
            index,
        ) {
            Some(k) => !scalar_valid(k),
            None => false,
        }),
        (match child_key_spec(seed@, index) {
            Some(k) => !scalar_valid(k),
            None => false,
        }) ==> r is Err,
{
    let key = match derive_child_key(seed, index) {
        Ok(k) => k,
        Err(e) => return Err(e),
    };
    let tx = match build_deposit_tx() {
        Ok(t) => t,
        Err(e) => return Err(e),
    };
    let sig = match create_signature(&key, tx.nullifier_be.as_slice()) {
        Ok(s) => s,
        Err(e) => return Err(e),
    };
    let (proof_json, inputs_json) = match tx_proof(params, &tx.parts) {
        Ok(p) => p,
        Err(e) => return Err(e),
    };
    Ok(assemble_record(tx, sig, proof_json, inputs_json))
}

/// Generate the whole batch: exactly `count` records, ascending by index,
/// the record at position `i` bound to derivation index `i`. A count of
/// zero always succeeds with the empty batch: nothing outside the library
/// is consulted. A failure at any index aborts the batch with that error;
/// nothing partial is returned, and a derivation failure names an index
/// that has no child key.
pub fn generate_batch(seed: &[u8; 64], count: usize, params: &PoolParameters) -> (r: Result<
    Vec<TxDataRequest>,
    GenError,
>)
    requires
        count <= u32::MAX,
    ensures
        r matches Ok(v) ==> v@.len() == count && (forall|i: int|
            0 <= i < count ==> record_bound(#[trigger] v@[i]@, seed@, i as u32)) && (forall|i: int|
            0 <= i < count ==> segments_wf(#[trigger] v@[i]@)),
        count == 0 ==> (r matches Ok(v) && v@.len() == 0),
        r == Err::<Vec<TxDataRequest>, GenError>(GenError::DerivationError) ==> exists|i: u32|
            (i as usize) < count && (#[trigger] child_key_spec(seed@, i)) is None,
{
    let mut out: Vec<TxDataRequest> = Vec::new();
    let mut i: usize = 0;
    while i < count
        invariant
            i <= count,
            count <= u32::MAX,
            out@.len() == i,
            forall|j: int| 0 <= j < i ==> record_bound(#[trigger] out@[j]@, seed@, j as u32),
            forall|j: int| 0 <= j < i ==> segments_wf(#[trigger] out@[j]@),
        decreases count - i,
    {
        match generate_record(seed, i as u32, params) {
            Ok(rec) => out.push(rec),
            Err(e) => {
                proof {
                    if e == GenError::DerivationError {
                        assert((i as u32 as usize) < count && child_key_spec(
                            seed@,
                            i as u32,
                        ) is None);
                    }
                }
                return Err(e);
            },
        }
        i += 1;
    }
    Ok(out)
}

} // verus!
