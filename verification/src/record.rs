//! One result record per batch index: the proof with its public-input list
//! (already rendered as JSON byte strings by the proving interface), the
//! memo bytes, the 64-byte signature, and the nullifier the signature is
//! bound to.

use vstd::prelude::*;

verus! {

/// A proof object and its ordered public-input list, each rendered as a
/// JSON byte string in the backend's native encoding (decimal strings for
/// the inputs).
pub struct ProofWithInputs {
    /// JSON rendering of the proof object's scheme fields.
    pub proof_json: Vec<u8>,
    /// JSON rendering of the public-input list.
    pub inputs_json: Vec<u8>,
}

/// The mathematical contents of a [`ProofWithInputs`].
pub ghost struct ProofWithInputsView {
    pub proof_json: Seq<u8>,
    pub inputs_json: Seq<u8>,
}

impl View for ProofWithInputs {
    type V = ProofWithInputsView;

    open spec fn view(&self) -> ProofWithInputsView {
        ProofWithInputsView { proof_json: self.proof_json@, inputs_json: self.inputs_json@ }
    }
}

/// One record of the output array: a Deposit with its proof, memo and the
/// signature bytes that go out as `extraData`. The nullifier the signature
/// signs is kept with the record; it is not serialized on its own.
pub struct TxDataRequest {
    /// The proof and its public-input list.
    pub proof: ProofWithInputs,
    /// The descriptor's memo bytes.
    pub memo: Vec<u8>,
    /// The 64-byte (r then s) signature over the record's own nullifier.
    pub extra_data: Vec<u8>,
    /// The nullifier this record's signature is bound to, 32 big-endian
    /// bytes.
    pub nullifier_be: Vec<u8>,
}

/// The mathematical contents of a [`TxDataRequest`].
pub ghost struct TxDataRequestView {
    pub proof: ProofWithInputsView,
    pub memo: Seq<u8>,
    pub extra_data: Seq<u8>,
    pub nullifier_be: Seq<u8>,
}

impl View for TxDataRequest {
    type V = TxDataRequestView;

    open spec fn view(&self) -> TxDataRequestView {
        TxDataRequestView {
            proof: self.proof@,
            memo: self.memo@,
            extra_data: self.extra_data@,
            nullifier_be: self.nullifier_be@,
        }
    }
}

} // verus!
