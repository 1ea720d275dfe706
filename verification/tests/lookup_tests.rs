use cosmwasm_std::StdError;
use tonbridge::lookup::{plan_query, QueryStep};
use tonbridge::msg::QueryMsg;
use tonbridge::query::Order;

#[test]
fn config_query_needs_nothing() {
    assert_eq!(plan_query(QueryMsg::Config {}).unwrap(), QueryStep::Config);
}

#[test]
fn candidate_page_settles_limit_and_order() {
    let step = plan_query(QueryMsg::GetCandidatesForValidators { start_after: Some(4), limit: None, order: None }).unwrap();
    assert_eq!(step, QueryStep::CandidatePage { start_after: Some(4), limit: 10, order: Order::Ascending });
}

#[test]
fn validator_page_caps_limit_and_reverses() {
    let step = plan_query(QueryMsg::GetValidators { start_after: None, limit: Some(99), order: Some(2) }).unwrap();
    assert_eq!(step, QueryStep::ValidatorPage { start_after: None, limit: 30, order: Order::Descending });
}

#[test]
fn verified_block_query_decodes_root_hash() {
    let step = plan_query(QueryMsg::IsVerifiedBlock { root_hash: vec![3u8; 32] }).unwrap();
    assert_eq!(step, QueryStep::IsVerifiedBlock { root_hash: [3u8; 32] });
    let err = plan_query(QueryMsg::IsVerifiedBlock { root_hash: vec![3u8; 31] }).unwrap_err();
    assert_eq!(err, StdError::generic_err("could not convert slice to array"));
}

#[test]
fn signature_query_decodes_node_id_then_root_hash() {
    let step = plan_query(QueryMsg::IsSignedByValidator { validator_node_id: vec![1u8; 32], root_hash: vec![2u8; 32] })
        .unwrap();
    assert_eq!(step, QueryStep::IsSignedByValidator { validator_node_id: [1u8; 32], root_hash: [2u8; 32] });
    let err = plan_query(QueryMsg::IsSignedByValidator { validator_node_id: vec![1u8; 5], root_hash: vec![2u8; 7] })
        .unwrap_err();
    assert_eq!(err, StdError::invalid_data_size(32, 5));
    let err = plan_query(QueryMsg::IsSignedByValidator { validator_node_id: vec![1u8; 32], root_hash: vec![2u8; 7] })
        .unwrap_err();
    assert_eq!(err, StdError::invalid_data_size(32, 7));
}
