//! Stored state of the bridge contract: channel bookkeeping and the
//! mapping metadata of bridged denominations.
use vstd::prelude::*;

verus! {

/// A token on the local chain: a cw20 contract or a native denomination.
#[derive(Clone, Debug, PartialEq, Eq)]
pub enum AssetInfo {
    Token { contract_addr: String },
    NativeToken { denom: String },
}

/// The text of an asset: its contract address or its denomination.
pub open spec fn asset_info_text(info: AssetInfo) -> Seq<char> {
    match info {
        AssetInfo::Token { contract_addr } => contract_addr@,
        AssetInfo::NativeToken { denom } => denom@,
    }
}

impl AssetInfo {
    /// The asset's text form: the contract address of a token, the
    /// denomination of a native coin.
    pub fn to_text(&self) -> (res: String)
        ensures
            res@ == asset_info_text(*self),
    {
        match self {
            AssetInfo::Token { contract_addr } => contract_addr.clone(),
            AssetInfo::NativeToken { denom } => denom.clone(),
        }
    }
}

/// How a remote denomination maps onto a local asset.
#[derive(Clone, Debug, PartialEq, Eq)]
pub struct MappingMetadata {
    /// asset info on local chain. Can be either cw20 or native
    pub asset_info: AssetInfo,
    pub remote_decimals: u8,
    pub asset_info_decimals: u8,
}

impl MappingMetadata {
    /// The key under which the denomination mapping index files this
    /// entry: the text of its local asset.
    pub fn index_key(&self) -> (res: String)
        ensures
            res@ == asset_info_text(self.asset_info),
    {
        self.asset_info.to_text()
    }
}

/// Amounts that a channel carries for one denomination.
#[derive(Clone, Copy, Debug, PartialEq, Eq, Structural)]
pub struct ChannelState {
    pub outstanding: u128,
    pub total_sent: u128,
}

impl Default for ChannelState {
    fn default() -> (res: Self)
        ensures
            res.outstanding == 0,
            res.total_sent == 0,
    {
        ChannelState { outstanding: 0, total_sent: 0 }
    }
}

/// Key of a channel's state: the channel and the denomination.
#[derive(Clone, Debug, PartialEq, Eq)]
pub struct ChannelKey {
    pub channel_id: String,
    pub denom: String,
}

impl Default for ChannelKey {
    fn default() -> (res: Self)
        ensures
            res.channel_id@ == Seq::<char>::empty(),
            res.denom@ == Seq::<char>::empty(),
    {
        ChannelKey { channel_id: String::new(), denom: String::new() }
    }
}

} // verus!
