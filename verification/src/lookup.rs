//! What the validator contract looks up for each question it is asked:
//! the page asked for, or the hashes decoded.
use vstd::prelude::*;
use crate::error::{generic_error, invalid_data_size_error};
use crate::hash::{Bytes32, root_hash_from_slice, to_bytes32};
use crate::msg::QueryMsg;
use crate::query::{Order, map_order, page_limit, spec_map_order, spec_page_limit};

verus! {

/// A question with its arguments settled: the lookup left to do.
#[derive(Clone, Debug, PartialEq, Eq)]
pub enum QueryStep {
    Config,
    CandidatePage { start_after: Option<u64>, limit: usize, order: Order },
    ValidatorPage { start_after: Option<u64>, limit: usize, order: Order },
    IsVerifiedBlock { root_hash: Bytes32 },
    IsSignedByValidator { validator_node_id: Bytes32, root_hash: Bytes32 },
}

/// Settles the arguments of a question: the page size and walking order
/// of a listing, the 32-byte hashes of a block or signature lookup. A hash
/// of any other length refuses the question, the node id before the root
/// hash.
pub fn plan_query(msg: QueryMsg) -> (res: Result<QueryStep, cosmwasm_std::StdError>)
    ensures
        match msg {
            QueryMsg::Config {} => res matches Ok(QueryStep::Config),
            QueryMsg::GetCandidatesForValidators { start_after, limit, order } =>
                res matches Ok(QueryStep::CandidatePage { start_after: s, limit: l, order: o })
                    && s == start_after && l as nat == spec_page_limit(limit) && o == spec_map_order(order)
                    && l == (match limit { Some(x) => if x <= 30 { x as usize } else { 30 }, None => 10 })
                    && (o == Order::Ascending <==> (order is None || order == Some(1u8))),
            QueryMsg::GetValidators { start_after, limit, order } =>
                res matches Ok(QueryStep::ValidatorPage { start_after: s, limit: l, order: o })
                    && s == start_after && l as nat == spec_page_limit(limit) && o == spec_map_order(order)
                    && l == (match limit { Some(x) => if x <= 30 { x as usize } else { 30 }, None => 10 })
                    && (o == Order::Ascending <==> (order is None || order == Some(1u8))),
            QueryMsg::IsVerifiedBlock { root_hash } => {
                &&& (res is Ok <==> root_hash@.len() == 32)
                &&& res matches Ok(step) ==> step matches QueryStep::IsVerifiedBlock { root_hash: r } && r@ == root_hash@
                &&& res matches Err(e) ==> exists|err: std::array::TryFromSliceError, text: String|
                    vstd::string::to_string_from_display_ensures(&err, text) && e == generic_error(text@)
            },
            QueryMsg::IsSignedByValidator { validator_node_id, root_hash } => {
                &&& (res is Ok <==> validator_node_id@.len() == 32 && root_hash@.len() == 32)
                &&& res matches Ok(step) ==> step matches QueryStep::IsSignedByValidator { validator_node_id: n, root_hash: r }
                    && n@ == validator_node_id@ && r@ == root_hash@
                &&& res matches Err(e) ==> if validator_node_id@.len() != 32 {
                    e == invalid_data_size_error(32, validator_node_id@.len() as usize)
                } else {
                    e == invalid_data_size_error(32, root_hash@.len() as usize)
                }
            },
        },
{
    match msg {
        QueryMsg::Config {} => Ok(QueryStep::Config),
        QueryMsg::GetCandidatesForValidators { start_after, limit, order } => Ok(QueryStep::CandidatePage {
            start_after,
            limit: page_limit(limit),
            order: map_order(order),
        }),
        QueryMsg::GetValidators { start_after, limit, order } => Ok(QueryStep::ValidatorPage {
            start_after,
            limit: page_limit(limit),
            order: map_order(order),
        }),
        QueryMsg::IsVerifiedBlock { root_hash } => match root_hash_from_slice(root_hash.as_slice()) {
            Ok(root_hash) => Ok(QueryStep::IsVerifiedBlock { root_hash }),
            Err(e) => Err(e),
        },
        QueryMsg::IsSignedByValidator { validator_node_id, root_hash } => {
            let validator_node_id = match to_bytes32(validator_node_id.as_slice()) {
                Ok(a) => a,
                Err(e) => { return Err(e); },
            };
            let root_hash = match to_bytes32(root_hash.as_slice()) {
                Ok(a) => a,
                Err(e) => { return Err(e); },
            };
            Ok(QueryStep::IsSignedByValidator { validator_node_id, root_hash })
        },
    }
}

} // verus!
