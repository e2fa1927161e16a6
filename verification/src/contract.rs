//! The maker's decisions on instantiation, on a change of settings and on queries.

use crate::asset::{Asset, AssetInfo, AssetView};
use crate::error::ContractError;
use crate::factory::{infos_view, keys_distinct, names};
use crate::msg::{InstantiateMsg, QueryBalancesResponse, QueryConfigResponse};
use crate::state::{Config, MAX_GOVERNANCE_PERCENT};
use vstd::prelude::*;

verus! {

/// The configuration that an instantiation by `sender` with `msg` stores.
pub open spec fn instantiated_config(sender: String, msg: InstantiateMsg) -> Config {
    Config {
        owner: sender,
        factory_contract: msg.factory_contract,
        staking_contract: msg.staking_contract,
        governance_contract: msg.governance_contract,
        governance_percent: msg.governance_percent,
        astro_token_contract: msg.astro_token_contract,
    }
}

/// `cfg` with the governance share set to `governance_percent`.
pub open spec fn with_governance_percent(cfg: Config, governance_percent: u64) -> Config {
    Config { governance_percent, ..cfg }
}

/// What the configuration query answers for `cfg`.
pub open spec fn config_response(cfg: Config) -> QueryConfigResponse {
    QueryConfigResponse {
        owner: cfg.owner,
        factory_contract: cfg.factory_contract,
        staking_contract: cfg.staking_contract,
        governance_contract: cfg.governance_contract,
        governance_percent: cfg.governance_percent,
        astro_token_contract: cfg.astro_token_contract,
    }
}

/// Checks a governance share: at most one hundred percent.
pub fn validate_governance_percent(governance_percent: u64) -> (r: Result<(), ContractError>)
    ensures
        r is Ok <==> governance_percent <= MAX_GOVERNANCE_PERCENT,
        r is Err ==> r->Err_0 is IncorrectGovernancePercent,
{
    if governance_percent > MAX_GOVERNANCE_PERCENT {
        Err(ContractError::IncorrectGovernancePercent)
    } else {
        Ok(())
    }
}

/// The configuration that `sender` instantiates the maker with: the addresses of `msg`, with
/// `sender` as owner. A governance share above one hundred percent is refused.
pub fn instantiate(sender: String, msg: InstantiateMsg) -> (r: Result<Config, ContractError>)
    ensures
        r is Ok <==> msg.governance_percent <= MAX_GOVERNANCE_PERCENT,
        r matches Ok(cfg) ==> cfg == instantiated_config(sender, msg) && cfg.valid(),
        r matches Ok(cfg) ==> {
            &&& cfg.owner == sender
            &&& cfg.factory_contract == msg.factory_contract
            &&& cfg.staking_contract == msg.staking_contract
            &&& cfg.governance_contract == msg.governance_contract
            &&& cfg.governance_percent == msg.governance_percent
            &&& cfg.astro_token_contract == msg.astro_token_contract
        },
        r matches Err(e) ==> e is IncorrectGovernancePercent,
{
    validate_governance_percent(msg.governance_percent)?;
    Ok(
        Config {
            owner: sender,
            factory_contract: msg.factory_contract,
            staking_contract: msg.staking_contract,
            governance_contract: msg.governance_contract,
            governance_percent: msg.governance_percent,
            astro_token_contract: msg.astro_token_contract,
        },
    )
}

/// The configuration after a change of the governance share to `governance_percent`:
/// everything else stays. A share above one hundred percent is refused.
pub fn set_config(cfg: Config, governance_percent: u64) -> (r: Result<Config, ContractError>)
    ensures
        r is Ok <==> governance_percent <= MAX_GOVERNANCE_PERCENT,
        r matches Ok(c) ==> c == with_governance_percent(cfg, governance_percent) && c.valid(),
        r matches Ok(c) ==> {
            &&& c.governance_percent == governance_percent
            &&& c.owner == cfg.owner
            &&& c.factory_contract == cfg.factory_contract
            &&& c.staking_contract == cfg.staking_contract
            &&& c.governance_contract == cfg.governance_contract
            &&& c.astro_token_contract == cfg.astro_token_contract
        },
        r matches Err(e) ==> e is IncorrectGovernancePercent,
{
    validate_governance_percent(governance_percent)?;
    let mut cfg = cfg;
    cfg.governance_percent = governance_percent;
    Ok(cfg)
}

/// The answer to the configuration query: the stored configuration, field by field.
pub fn query_get_config(cfg: &Config) -> (r: QueryConfigResponse)
    ensures
        r == config_response(*cfg),
        r.owner == cfg.owner,
        r.factory_contract == cfg.factory_contract,
        r.staking_contract == cfg.staking_contract,
        r.governance_contract == cfg.governance_contract,
        r.governance_percent == cfg.governance_percent,
        r.astro_token_contract == cfg.astro_token_contract,
{
    QueryConfigResponse {
        owner: cfg.owner.clone(),
        factory_contract: cfg.factory_contract.clone(),
        staking_contract: cfg.staking_contract.clone(),
        governance_contract: cfg.governance_contract.clone(),
        governance_percent: cfg.governance_percent,
        astro_token_contract: cfg.astro_token_contract.clone(),
    }
}

/// The assets of `assets` of which the maker holds something, with those amounts, in order.
pub open spec fn nonzero_balances(assets: Seq<crate::asset::AssetInfoView>, balances: Seq<u128>) -> Seq<AssetView>
    decreases assets.len(),
{
    if assets.len() == 0 {
        Seq::empty()
    } else {
        let n = assets.len() - 1;
        let rest = nonzero_balances(assets.drop_last(), balances.take(n));
        if balances[n] == 0 {
            rest
        } else {
            rest.push(AssetView { info: assets[n], amount: balances[n] })
        }
    }
}

/// The views of a list of amounts of assets.
pub open spec fn assets_view(assets: Seq<Asset>) -> Seq<AssetView> {
    assets.map_values(|a: Asset| a@)
}

/// The assets of a list of amounts of assets.
pub open spec fn balance_infos(held: Seq<AssetView>) -> Seq<crate::asset::AssetInfoView> {
    held.map_values(|a: AssetView| a.info)
}

/// Of assets named once each, the held ones are named once each too, every amount held is
/// non-zero, and every held asset is one of the assets.
pub proof fn lemma_nonzero_balances_distinct(assets: Seq<crate::asset::AssetInfoView>, balances: Seq<u128>)
    requires
        assets.len() == balances.len(),
        keys_distinct(assets),
    ensures
        keys_distinct(balance_infos(nonzero_balances(assets, balances))),
        forall|i: int| 0 <= i < nonzero_balances(assets, balances).len()
            ==> #[trigger] nonzero_balances(assets, balances)[i].amount != 0,
        forall|i: int| 0 <= i < nonzero_balances(assets, balances).len()
            ==> names(assets, #[trigger] nonzero_balances(assets, balances)[i].info.key()),
    decreases assets.len(),
{
    if assets.len() > 0 {
        let n = assets.len() - 1;
        let rest_a = assets.drop_last();
        let rest_b = balances.take(n);
        assert forall|i: int, j: int|
            0 <= i < rest_a.len() && 0 <= j < rest_a.len() && i != j implies #[trigger] rest_a[i].key()
            != #[trigger] rest_a[j].key() by {
            assert(rest_a[i] == assets[i] && rest_a[j] == assets[j]);
        }
        lemma_nonzero_balances_distinct(rest_a, rest_b);
        let rest = nonzero_balances(rest_a, rest_b);
        let all = nonzero_balances(assets, balances);
        assert forall|i: int| 0 <= i < rest.len() implies #[trigger] names(assets, rest[i].info.key()) && rest[i].info.key()
            != assets[n].key() by {
            assert(names(rest_a, rest[i].info.key()));
            let k = choose|k: int| 0 <= k < rest_a.len() && #[trigger] rest_a[k].key() == rest[i].info.key();
            assert(rest_a[k] == assets[k]);
            assert(assets[k].key() != assets[n].key());
        }
        if balances[n] != 0 {
            assert(all == rest.push(AssetView { info: assets[n], amount: balances[n] }));
            assert forall|i: int, j: int|
                0 <= i < all.len() && 0 <= j < all.len() && i != j implies #[trigger] balance_infos(all)[i].key()
                != #[trigger] balance_infos(all)[j].key() by {
                if i < rest.len() && j < rest.len() {
                    assert(balance_infos(rest)[i] == rest[i].info && balance_infos(rest)[j] == rest[j].info);
                }
            }
            assert forall|i: int| 0 <= i < all.len() implies #[trigger] names(assets, all[i].info.key()) by {
                if i == rest.len() {
                    assert(all[i] == AssetView { info: assets[n], amount: balances[n] });
                    assert(assets[n].key() == all[i].info.key());
                } else {
                    assert(all[i] == rest[i]);
                }
            }
        } else {
            assert forall|i: int, j: int|
                0 <= i < all.len() && 0 <= j < all.len() && i != j implies #[trigger] balance_infos(all)[i].key()
                != #[trigger] balance_infos(all)[j].key() by {
                assert(balance_infos(rest)[i] == rest[i].info && balance_infos(rest)[j] == rest[j].info);
            }
        }
    }
}

/// The answer to the balances query, given the assets of the factory's pairs, each named once,
/// and the balance of each: every asset of which the maker holds something, with that amount.
/// No asset appears twice in it, and no amount in it is zero.
pub fn query_get_balances(assets: &Vec<AssetInfo>, balances: &Vec<u128>) -> (r: QueryBalancesResponse)
    requires
        assets.len() == balances.len(),
        keys_distinct(infos_view(assets@)),
    ensures
        assets_view(r.balances@) == nonzero_balances(infos_view(assets@), balances@),
        keys_distinct(balance_infos(assets_view(r.balances@))),
        forall|i: int| 0 <= i < r.balances.len() ==> (#[trigger] r.balances@[i]).amount != 0,
{
    proof {
        lemma_nonzero_balances_distinct(infos_view(assets@), balances@);
    }
    let mut result: Vec<Asset> = Vec::new();
    let mut i: usize = 0;
    while i < assets.len()
        invariant
            i <= assets.len(),
            assets.len() == balances.len(),
            assets_view(result@) == nonzero_balances(infos_view(assets@.take(i as int)), balances@.take(i as int)),
        decreases assets.len() - i,
    {
        let ghost before = assets_view(result@);
        assert(infos_view(assets@.take(i + 1)).drop_last() =~= infos_view(assets@.take(i as int)));
        assert(balances@.take(i + 1).take(i as int) =~= balances@.take(i as int));
        if balances[i] != 0 {
            result.push(Asset { info: assets[i].clone(), amount: balances[i] });
            assert(assets_view(result@) =~= before.push(AssetView { info: assets@[i as int]@, amount: balances@[i as int] }));
        }
        i += 1;
    }
    assert(assets@.take(assets.len() as int) =~= assets@);
    assert(balances@.take(balances.len() as int) =~= balances@);
    assert forall|i: int| 0 <= i < result.len() implies (#[trigger] result@[i]).amount != 0 by {
        assert(assets_view(result@)[i] == result@[i]@);
        assert(nonzero_balances(infos_view(assets@), balances@)[i].amount != 0);
    }
    QueryBalancesResponse { balances: result }
}

/// Law: after the governance share is set, the configuration query reports the new share
/// and everything else as it was; a second change overrides the first.
pub proof fn set_config_then_query(cfg: Config, governance_percent: u64, later_percent: u64)
    ensures
        config_response(with_governance_percent(cfg, governance_percent)) == (QueryConfigResponse {
            governance_percent,
            ..config_response(cfg)
        }),
        with_governance_percent(with_governance_percent(cfg, governance_percent), later_percent)
            == with_governance_percent(cfg, later_percent),
{
}

/// Law: the balances query lists only assets of which the maker holds something, each with
/// the balance queried for it, in the order of the assets.
pub proof fn nonzero_balances_are_held(assets: Seq<crate::asset::AssetInfoView>, balances: Seq<u128>)
    requires
        assets.len() == balances.len(),
    ensures
        nonzero_balances(assets, balances).len() <= assets.len(),
        forall|i: int| 0 <= i < nonzero_balances(assets, balances).len() ==> exists|k: int|
            0 <= k < assets.len() && balances[k] != 0
                && #[trigger] nonzero_balances(assets, balances)[i] == (AssetView { info: assets[k], amount: balances[k] }),
        forall|k: int| 0 <= k < assets.len() && balances[k] != 0 ==> exists|i: int|
            0 <= i < nonzero_balances(assets, balances).len()
                && #[trigger] nonzero_balances(assets, balances)[i] == (AssetView { info: assets[k], amount: balances[k] }),
    decreases assets.len(),
{
    if assets.len() > 0 {
        let n = assets.len() - 1;
        let rest_a = assets.drop_last();
        let rest_b = balances.take(n);
        nonzero_balances_are_held(rest_a, rest_b);
        let rest = nonzero_balances(rest_a, rest_b);
        let all = nonzero_balances(assets, balances);
        assert forall|i: int| 0 <= i < all.len() implies exists|k: int|
            0 <= k < assets.len() && balances[k] != 0
                && #[trigger] all[i] == (AssetView { info: assets[k], amount: balances[k] }) by {
            if i < rest.len() {
                let k = choose|k: int| 0 <= k < rest_a.len() && rest_b[k] != 0
                    && #[trigger] rest[i] == (AssetView { info: rest_a[k], amount: rest_b[k] });
                assert(all[i] == rest[i]);
                assert(rest_a[k] == assets[k] && rest_b[k] == balances[k]);
            } else {
                assert(all[i] == (AssetView { info: assets[n], amount: balances[n] }));
            }
        }
        assert forall|k: int| 0 <= k < assets.len() && balances[k] != 0 implies exists|i: int|
            0 <= i < all.len()
                && #[trigger] all[i] == (AssetView { info: assets[k], amount: balances[k] }) by {
            if k < n {
                assert(rest_a[k] == assets[k] && rest_b[k] == balances[k]);
                let i = choose|i: int| 0 <= i < rest.len()
                    && #[trigger] rest[i] == (AssetView { info: rest_a[k], amount: rest_b[k] });
                assert(all[i] == rest[i]);
            } else {
                assert(all[rest.len() as int] == (AssetView { info: assets[n], amount: balances[n] }));
            }
        }
    }
}

/// Law: an instantiation stores the message as it is: the sender as owner, the message's
/// addresses and its governance share.
pub proof fn instantiation_stores_the_message(sender: String, msg: InstantiateMsg)
    ensures
        instantiated_config(sender, msg).owner == sender,
        instantiated_config(sender, msg).factory_contract == msg.factory_contract,
        instantiated_config(sender, msg).staking_contract == msg.staking_contract,
        instantiated_config(sender, msg).governance_contract == msg.governance_contract,
        instantiated_config(sender, msg).governance_percent == msg.governance_percent,
        instantiated_config(sender, msg).astro_token_contract == msg.astro_token_contract,
        msg.governance_percent <= MAX_GOVERNANCE_PERCENT ==> instantiated_config(sender, msg).valid(),
{
}

/// Law: a change of the governance share stores exactly the new share and keeps every other
/// setting, and the configuration query reports each stored setting as it is.
pub proof fn set_config_stores_the_share(cfg: Config, governance_percent: u64)
    ensures
        with_governance_percent(cfg, governance_percent).governance_percent == governance_percent,
        with_governance_percent(cfg, governance_percent).owner == cfg.owner,
        with_governance_percent(cfg, governance_percent).factory_contract == cfg.factory_contract,
        with_governance_percent(cfg, governance_percent).staking_contract == cfg.staking_contract,
        with_governance_percent(cfg, governance_percent).governance_contract == cfg.governance_contract,
        with_governance_percent(cfg, governance_percent).astro_token_contract == cfg.astro_token_contract,
        config_response(cfg).owner == cfg.owner,
        config_response(cfg).factory_contract == cfg.factory_contract,
        config_response(cfg).staking_contract == cfg.staking_contract,
        config_response(cfg).governance_contract == cfg.governance_contract,
        config_response(cfg).governance_percent == cfg.governance_percent,
        config_response(cfg).astro_token_contract == cfg.astro_token_contract,
{
}

} // verus!
