use tonbridge::error::ContractError;
use tonbridge::state::{AssetInfo, ChannelKey, ChannelState, MappingMetadata};

#[test]
fn channel_state_default_is_zero() {
    let s = ChannelState::default();
    assert_eq!(s, ChannelState { outstanding: 0, total_sent: 0 });
}

#[test]
fn channel_key_default_is_empty() {
    let k = ChannelKey::default();
    assert_eq!(k.channel_id, "");
    assert_eq!(k.denom, "");
}

#[test]
fn native_asset_text_is_denom() {
    let a = AssetInfo::NativeToken { denom: "orai".to_string() };
    assert_eq!(a.to_text(), "orai");
}

#[test]
fn token_asset_text_is_contract_address() {
    let a = AssetInfo::Token { contract_addr: "orai1contract".to_string() };
    assert_eq!(a.to_text(), "orai1contract");
}

#[test]
fn mapping_index_key_is_asset_text() {
    let m = MappingMetadata {
        asset_info: AssetInfo::NativeToken { denom: "uusdt".to_string() },
        remote_decimals: 6,
        asset_info_decimals: 18,
    };
    assert_eq!(m.index_key(), "uusdt");
    let t = MappingMetadata {
        asset_info: AssetInfo::Token { contract_addr: "orai1token".to_string() },
        remote_decimals: 9,
        asset_info_decimals: 6,
    };
    assert_eq!(t.index_key(), "orai1token");
}

#[test]
fn contract_error_carries_reply_id() {
    let e = ContractError::UnknownReplyId { id: 7 };
    assert!(matches!(e, ContractError::UnknownReplyId { id: 7 }));
    let s = ContractError::Std(cosmwasm_std::StdError::generic_err("x"));
    assert!(matches!(s, ContractError::Std(_)));
}
