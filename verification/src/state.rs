//! The maker's stored settings.

use crate::asset::AssetInfoView;
use vstd::prelude::*;

verus! {

/// The largest governance share, in percent.
pub const MAX_GOVERNANCE_PERCENT: u64 = 100;

/// The settings that the maker keeps between requests.
#[derive(Debug)]
pub struct Config {
    /// The account that instantiated the maker.
    pub owner: String,
    /// The factory that lists the pairs whose fees the maker collects.
    pub factory_contract: String,
    /// The staking contract, which receives what governance does not.
    pub staking_contract: String,
    /// The governance contract.
    pub governance_contract: String,
    /// The share of the collected ASTRO that goes to governance, in percent.
    pub governance_percent: u64,
    /// The ASTRO token contract.
    pub astro_token_contract: String,
}

impl Config {
    /// A stored configuration never gives governance more than everything.
    pub open spec fn valid(&self) -> bool {
        self.governance_percent <= MAX_GOVERNANCE_PERCENT
    }

    /// The ASTRO token as an asset.
    pub open spec fn astro(&self) -> AssetInfoView {
        AssetInfoView::Token { contract_addr: self.astro_token_contract@ }
    }
}

} // verus!
