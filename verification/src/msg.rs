//! The messages that the maker takes and the ones it sends.

use crate::asset::{Asset, AssetInfo};
use vstd::prelude::*;

verus! {

/// What the maker is instantiated with.
#[derive(Debug)]
pub struct InstantiateMsg {
    pub factory_contract: String,
    pub staking_contract: String,
    pub governance_contract: String,
    pub governance_percent: u64,
    pub astro_token_contract: String,
}

/// The requests that change the maker's state or send tokens.
#[derive(Debug)]
pub enum ExecuteMsg {
    /// Collect the fees of the pairs that the factory lists after `start_after`,
    /// at most `limit` of them.
    Collect { start_after: Option<[AssetInfo; 2]>, limit: Option<u32> },
    /// Change the governance share.
    SetConfig { governance_percent: u64 },
}

/// The questions that the maker answers.
#[derive(Debug)]
pub enum QueryMsg {
    Config {},
    Balances {},
}

/// The answer to [`QueryMsg::Config`].
#[derive(Debug)]
pub struct QueryConfigResponse {
    pub owner: String,
    pub factory_contract: String,
    pub staking_contract: String,
    pub governance_contract: String,
    pub governance_percent: u64,
    pub astro_token_contract: String,
}

/// The answer to [`QueryMsg::Balances`]: every asset of the factory's pairs that the
/// maker holds a non-zero amount of.
#[derive(Debug)]
pub struct QueryBalancesResponse {
    pub balances: Vec<Asset>,
}

/// A message that the maker sends out.
#[derive(Debug)]
pub enum MakerMsg {
    /// A CW20 `Transfer` of `amount` of the token `token` to `recipient`.
    Transfer { token: String, recipient: String, amount: u128 },
    /// A `Swap` on the pair `pair` that offers `amount` of the native `denom`, sent along as funds.
    SwapNative { pair: String, denom: String, amount: u128 },
    /// A CW20 `Send` of `amount` of the token `token` to the pair `pair`, with a `Swap` hook.
    SwapToken { token: String, pair: String, amount: u128 },
}

/// The mathematical value of a [`MakerMsg`].
pub enum MakerMsgView {
    Transfer { token: Seq<char>, recipient: Seq<char>, amount: u128 },
    SwapNative { pair: Seq<char>, denom: Seq<char>, amount: u128 },
    SwapToken { token: Seq<char>, pair: Seq<char>, amount: u128 },
}

impl View for MakerMsg {
    type V = MakerMsgView;

    open spec fn view(&self) -> MakerMsgView {
        match self {
            MakerMsg::Transfer { token, recipient, amount } => MakerMsgView::Transfer {
                token: token@,
                recipient: recipient@,
                amount: *amount,
            },
            MakerMsg::SwapNative { pair, denom, amount } => MakerMsgView::SwapNative {
                pair: pair@,
                denom: denom@,
                amount: *amount,
            },
            MakerMsg::SwapToken { token, pair, amount } => MakerMsgView::SwapToken {
                token: token@,
                pair: pair@,
                amount: *amount,
            },
        }
    }
}

/// The views of a list of messages.
pub open spec fn msgs_view(msgs: Seq<MakerMsg>) -> Seq<MakerMsgView> {
    msgs.map_values(|m: MakerMsg| m@)
}

} // verus!
