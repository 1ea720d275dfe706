//! Messages of the validator contract, with their binary payloads as bytes.
use vstd::prelude::*;
use crate::hash::Bytes32;

verus! {

/// A validator's signature of a block, each part as the bytes a relayer sent.
#[derive(Clone, Debug, PartialEq, Eq)]
pub struct VdataHex {
    pub node_id: Vec<u8>,
    pub r: Vec<u8>,
    pub s: Vec<u8>,
}

/// A validator's signature of a block, each part decoded to 32 bytes.
#[derive(Clone, Copy, Debug, PartialEq, Eq)]
pub struct Vdata {
    pub node_id: Bytes32,
    pub r: Bytes32,
    pub s: Bytes32,
}

/// Whether every part of every signature holds exactly 32 bytes.
pub open spec fn vdata_well_sized(vdata: Seq<VdataHex>) -> bool {
    forall|i: int| 0 <= i < vdata.len() ==> {
        &&& (#[trigger] vdata[i]).node_id@.len() == 32
        &&& vdata[i].r@.len() == 32
        &&& vdata[i].s@.len() == 32
    }
}

/// Whether `decoded` holds, in order, the bytes of `hex`.
pub open spec fn vdata_decodes(hex: Seq<VdataHex>, decoded: Seq<Vdata>) -> bool {
    &&& decoded.len() == hex.len()
    &&& forall|i: int| 0 <= i < hex.len() ==> {
        &&& (#[trigger] decoded[i]).node_id@ == hex[i].node_id@
        &&& decoded[i].r@ == hex[i].r@
        &&& decoded[i].s@ == hex[i].s@
    }
}

/// Messages that change the validator contract.
#[derive(Clone, Debug, PartialEq, Eq)]
pub enum ExecuteMsg {
    ParseCandidatesRootBlock { boc: Vec<u8> },
    ResetValidatorSet { boc: Vec<u8> },
    VerifyValidators { root_hash: Vec<u8>, file_hash: Vec<u8>, vdata: Vec<VdataHex> },
    ReadMasterProof { boc: Vec<u8> },
    ReadStateProof { boc: Vec<u8>, root_hash: Vec<u8> },
    ParseShardProofPath { boc: Vec<u8> },
    SetVerifiedBlock { root_hash: Vec<u8>, seq_no: u32 },
}

impl ExecuteMsg {
    /// Whether the contract itself lets only its owner send this message:
    /// resetting the validator set skips verification, so only the owner may
    /// do it. Marking a block verified is an owner action too, but the
    /// contract leaves that check to the validator, which gets the caller
    /// with the step; so it is not counted here.
    pub fn admin_only(&self) -> (res: bool)
        ensures
            res == (*self is ResetValidatorSet),
    {
        match self {
            ExecuteMsg::ResetValidatorSet { .. } => true,
            _ => false,
        }
    }
}

/// Questions put to the validator contract.
#[derive(Clone, Debug, PartialEq, Eq)]
pub enum QueryMsg {
    Config {},
    GetCandidatesForValidators { start_after: Option<u64>, limit: Option<u32>, order: Option<u8> },
    GetValidators { start_after: Option<u64>, limit: Option<u32>, order: Option<u8> },
    IsVerifiedBlock { root_hash: Vec<u8> },
    IsSignedByValidator { validator_node_id: Vec<u8>, root_hash: Vec<u8> },
}

} // verus!
