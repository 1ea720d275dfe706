//! What the validator contract does for each message it is sent: the
//! payloads decoded, and the step that then runs on the stored validator.
use vstd::prelude::*;
use crate::error::{ContractError, invalid_data_size_error};
use crate::hash::{Bytes32, to_bytes32};
use crate::msg::{ExecuteMsg, Vdata, VdataHex, vdata_decodes, vdata_well_sized};

verus! {

/// A message with its hashes decoded: the work left to do on the validator.
#[derive(Clone, Debug, PartialEq, Eq)]
pub enum ValidatorStep {
    ParseCandidatesRootBlock { boc: Vec<u8> },
    ResetValidatorSet { boc: Vec<u8> },
    VerifyValidators { root_hash: Bytes32, file_hash: Bytes32, vdata: Vec<Vdata> },
    ReadMasterProof { boc: Vec<u8> },
    ReadStateProof { boc: Vec<u8>, root_hash: Bytes32 },
    ParseShardProofPath { boc: Vec<u8> },
    SetVerifiedBlock { caller: String, root_hash: Bytes32, seq_no: u32 },
}

/// The `action` attribute that the response to a step carries.
pub open spec fn spec_action(step: ValidatorStep) -> Seq<char> {
    match step {
        ValidatorStep::ParseCandidatesRootBlock { .. } => "parse_candidates_root_block"@,
        ValidatorStep::ResetValidatorSet { .. } => "reset_validator_set"@,
        ValidatorStep::VerifyValidators { .. } => "verify_validators"@,
        ValidatorStep::ReadMasterProof { .. } => "read_master_proof"@,
        ValidatorStep::ReadStateProof { .. } => "read_state_proof"@,
        ValidatorStep::ParseShardProofPath { .. } => "parse_shard_proof_path"@,
        ValidatorStep::SetVerifiedBlock { .. } => "set_verified_block"@,
    }
}

impl ValidatorStep {
    /// The `action` attribute of the response: the name of the step.
    pub fn action(&self) -> (res: &'static str)
        ensures
            res@ == spec_action(*self),
    {
        match self {
            ValidatorStep::ParseCandidatesRootBlock { .. } => "parse_candidates_root_block",
            ValidatorStep::ResetValidatorSet { .. } => "reset_validator_set",
            ValidatorStep::VerifyValidators { .. } => "verify_validators",
            ValidatorStep::ReadMasterProof { .. } => "read_master_proof",
            ValidatorStep::ReadStateProof { .. } => "read_state_proof",
            ValidatorStep::ParseShardProofPath { .. } => "parse_shard_proof_path",
            ValidatorStep::SetVerifiedBlock { .. } => "set_verified_block",
        }
    }

    /// Whether the step changes the validator, which is then stored again.
    pub fn stores_validator(&self) -> (res: bool)
        ensures
            res == (*self is ParseCandidatesRootBlock || *self is ResetValidatorSet
                || *self is VerifyValidators),
    {
        match self {
            ValidatorStep::ParseCandidatesRootBlock { .. } => true,
            ValidatorStep::ResetValidatorSet { .. } => true,
            ValidatorStep::VerifyValidators { .. } => true,
            _ => false,
        }
    }
}

/// Decodes every part of every signature. Each part must hold 32 bytes.
pub fn decode_vdata(vdata: &Vec<VdataHex>) -> (res: Vec<Vdata>)
    requires
        vdata_well_sized(vdata@),
    ensures
        vdata_decodes(vdata@, res@),
{
    let mut res: Vec<Vdata> = Vec::new();
    let mut i: usize = 0;
    while i < vdata.len()
        invariant
            i <= vdata.len(),
            vdata_well_sized(vdata@),
            res@.len() == i,
            forall|j: int| 0 <= j < i ==> {
                &&& (#[trigger] res@[j]).node_id@ == vdata@[j].node_id@
                &&& res@[j].r@ == vdata@[j].r@
                &&& res@[j].s@ == vdata@[j].s@
            },
        decreases vdata.len() - i,
    {
        let data = &vdata[i];
        assert(data.node_id@.len() == 32 && data.r@.len() == 32 && data.s@.len() == 32);
        let node_id = match to_bytes32(data.node_id.as_slice()) {
            Ok(a) => a,
            Err(_) => { proof { assert(false); } [0u8; 32] },
        };
        let r = match to_bytes32(data.r.as_slice()) {
            Ok(a) => a,
            Err(_) => { proof { assert(false); } [0u8; 32] },
        };
        let s = match to_bytes32(data.s.as_slice()) {
            Ok(a) => a,
            Err(_) => { proof { assert(false); } [0u8; 32] },
        };
        res.push(Vdata { node_id, r, s });
        i = i + 1;
    }
    res
}

/// Whether `e` is the error that decoding `data` as 32 bytes gives.
pub open spec fn is_size_error(e: ContractError, data: Seq<u8>) -> bool {
    e == ContractError::Std(invalid_data_size_error(32, data.len() as usize))
}

/// Decodes the payload of a message that `sender` sent into the step it
/// asks for. A hash that is not 32 bytes long refuses the message, with the
/// error of the first such hash; every other payload is passed on as it
/// came. Marking a block verified hands the sender on, for the validator's
/// owner check.
pub fn plan_execute(sender: String, msg: ExecuteMsg) -> (res: Result<ValidatorStep, ContractError>)
    requires
        msg matches ExecuteMsg::VerifyValidators { vdata, .. } ==> vdata_well_sized(vdata@),
    ensures
        match msg {
            ExecuteMsg::ParseCandidatesRootBlock { boc } =>
                res matches Ok(ValidatorStep::ParseCandidatesRootBlock { boc: b }) && b@ == boc@,
            ExecuteMsg::ResetValidatorSet { boc } =>
                res matches Ok(ValidatorStep::ResetValidatorSet { boc: b }) && b@ == boc@,
            ExecuteMsg::ReadMasterProof { boc } =>
                res matches Ok(ValidatorStep::ReadMasterProof { boc: b }) && b@ == boc@,
            ExecuteMsg::ParseShardProofPath { boc } =>
                res matches Ok(ValidatorStep::ParseShardProofPath { boc: b }) && b@ == boc@,
            ExecuteMsg::VerifyValidators { root_hash, file_hash, vdata } => {
                &&& (res is Ok <==> root_hash@.len() == 32 && file_hash@.len() == 32)
                &&& res matches Ok(step) ==> step matches ValidatorStep::VerifyValidators { root_hash: r, file_hash: f, vdata: v }
                    && r@ == root_hash@ && f@ == file_hash@ && vdata_decodes(vdata@, v@)
                &&& res matches Err(e) ==> if root_hash@.len() != 32 {
                    is_size_error(e, root_hash@)
                } else {
                    is_size_error(e, file_hash@)
                }
            },
            ExecuteMsg::ReadStateProof { boc, root_hash } => {
                &&& (res is Ok <==> root_hash@.len() == 32)
                &&& res matches Ok(step) ==> step matches ValidatorStep::ReadStateProof { boc: b, root_hash: r }
                    && b@ == boc@ && r@ == root_hash@
                &&& res matches Err(e) ==> is_size_error(e, root_hash@)
            },
            ExecuteMsg::SetVerifiedBlock { root_hash, seq_no } => {
                &&& (res is Ok <==> root_hash@.len() == 32)
                &&& res matches Ok(step) ==> step matches ValidatorStep::SetVerifiedBlock { caller: c, root_hash: r, seq_no: n }
                    && c@ == sender@ && r@ == root_hash@ && n == seq_no
                &&& res matches Err(e) ==> is_size_error(e, root_hash@)
            },
        },
{
    match msg {
        ExecuteMsg::ParseCandidatesRootBlock { boc } => Ok(ValidatorStep::ParseCandidatesRootBlock { boc }),
        ExecuteMsg::ResetValidatorSet { boc } => Ok(ValidatorStep::ResetValidatorSet { boc }),
        ExecuteMsg::VerifyValidators { root_hash, file_hash, vdata } => {
            let vdata = decode_vdata(&vdata);
            let root_hash = match to_bytes32(root_hash.as_slice()) {
                Ok(a) => a,
                Err(e) => { return Err(ContractError::Std(e)); },
            };
            let file_hash = match to_bytes32(file_hash.as_slice()) {
                Ok(a) => a,
                Err(e) => { return Err(ContractError::Std(e)); },
            };
            Ok(ValidatorStep::VerifyValidators { root_hash, file_hash, vdata })
        },
        ExecuteMsg::ReadMasterProof { boc } => Ok(ValidatorStep::ReadMasterProof { boc }),
        ExecuteMsg::ReadStateProof { boc, root_hash } => {
            match to_bytes32(root_hash.as_slice()) {
                Ok(root_hash) => Ok(ValidatorStep::ReadStateProof { boc, root_hash }),
                Err(e) => Err(ContractError::Std(e)),
            }
        },
        ExecuteMsg::ParseShardProofPath { boc } => Ok(ValidatorStep::ParseShardProofPath { boc }),
        ExecuteMsg::SetVerifiedBlock { root_hash, seq_no } => {
            match to_bytes32(root_hash.as_slice()) {
                Ok(root_hash) => Ok(ValidatorStep::SetVerifiedBlock { caller: sender, root_hash, seq_no }),
                Err(e) => Err(ContractError::Std(e)),
            }
        },
    }
}

} // verus!
