//! The errors that the maker's own rules produce.

use crate::asset::AssetInfo;
use vstd::prelude::*;

verus! {

/// Why a request to the maker was refused.
#[derive(Debug)]
pub enum ContractError {
    /// The governance share was set above one hundred percent.
    IncorrectGovernancePercent,
    /// The factory knows no pair that swaps the first asset into the second.
    PairNotFound(AssetInfo, AssetInfo),
}

} // verus!
