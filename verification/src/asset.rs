//! Assets as plain values: a token contract or a native denomination.

use vstd::prelude::*;

verus! {

/// What an asset is: the address of a token contract, or a native denomination.
#[derive(Debug, PartialEq, Eq)]
pub enum AssetInfo {
    Token { contract_addr: String },
    NativeToken { denom: String },
}

/// The mathematical value of an [`AssetInfo`].
pub enum AssetInfoView {
    Token { contract_addr: Seq<char> },
    NativeToken { denom: Seq<char> },
}

impl AssetInfoView {
    /// The string that names the asset: the contract address or the denomination.
    pub open spec fn key(self) -> Seq<char> {
        match self {
            AssetInfoView::Token { contract_addr } => contract_addr,
            AssetInfoView::NativeToken { denom } => denom,
        }
    }
}

impl View for AssetInfo {
    type V = AssetInfoView;

    open spec fn view(&self) -> AssetInfoView {
        match self {
            AssetInfo::Token { contract_addr } => AssetInfoView::Token { contract_addr: contract_addr@ },
            AssetInfo::NativeToken { denom } => AssetInfoView::NativeToken { denom: denom@ },
        }
    }
}

impl Clone for AssetInfo {
    fn clone(&self) -> (r: Self)
        ensures
            r@ == self@,
    {
        match self {
            AssetInfo::Token { contract_addr } => AssetInfo::Token { contract_addr: contract_addr.clone() },
            AssetInfo::NativeToken { denom } => AssetInfo::NativeToken { denom: denom.clone() },
        }
    }
}

/// An amount of an asset.
#[derive(Debug, PartialEq, Eq)]
pub struct Asset {
    pub info: AssetInfo,
    pub amount: u128,
}

/// The mathematical value of an [`Asset`].
pub struct AssetView {
    pub info: AssetInfoView,
    pub amount: u128,
}

impl View for Asset {
    type V = AssetView;

    open spec fn view(&self) -> AssetView {
        AssetView { info: self.info@, amount: self.amount }
    }
}

impl Clone for Asset {
    fn clone(&self) -> (r: Self)
        ensures
            r@ == self@,
    {
        Asset { info: self.info.clone(), amount: self.amount }
    }
}

/// Compares two assets with `astroport::asset::AssetInfo::equal`, which holds exactly when
/// both are tokens with the same contract address or both are native with the same denomination.
#[verifier::external_body]
pub(crate) fn asset_info_equal(a: &AssetInfo, b: &AssetInfo) -> (r: bool)
    ensures
        r == (a@ == b@),
{
    let outside_a = match a {
        AssetInfo::Token { contract_addr } => astroport::asset::AssetInfo::Token {
            contract_addr: cosmwasm_std::Addr::unchecked(contract_addr.as_str()),
        },
        AssetInfo::NativeToken { denom } => astroport::asset::AssetInfo::NativeToken { denom: denom.clone() },
    };
    let outside_b = match b {
        AssetInfo::Token { contract_addr } => astroport::asset::AssetInfo::Token {
            contract_addr: cosmwasm_std::Addr::unchecked(contract_addr.as_str()),
        },
        AssetInfo::NativeToken { denom } => astroport::asset::AssetInfo::NativeToken { denom: denom.clone() },
    };
    outside_a.equal(&outside_b)
}

/// The text of an asset as `astroport::asset::AssetInfo`'s `Display` writes it: the
/// contract address of a token, the denomination of a native asset.
#[verifier::external_body]
pub(crate) fn asset_key(a: &AssetInfo) -> (r: String)
    ensures
        r@ == a@.key(),
{
    match a {
        AssetInfo::Token { contract_addr } => astroport::asset::AssetInfo::Token {
            contract_addr: cosmwasm_std::Addr::unchecked(contract_addr.as_str()),
        },
        AssetInfo::NativeToken { denom } => astroport::asset::AssetInfo::NativeToken { denom: denom.clone() },
    }.to_string()
}

/// Asks `astroport::asset::AssetInfo::is_native_token`, which holds exactly for native assets.
#[verifier::external_body]
pub(crate) fn is_native_token(a: &AssetInfo) -> (r: bool)
    ensures
        r == (a@ is NativeToken),
{
    match a {
        AssetInfo::Token { contract_addr } => astroport::asset::AssetInfo::Token {
            contract_addr: cosmwasm_std::Addr::unchecked(contract_addr.as_str()),
        },
        AssetInfo::NativeToken { denom } => astroport::asset::AssetInfo::NativeToken { denom: denom.clone() },
    }.is_native_token()
}

} // verus!
