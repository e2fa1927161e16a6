use astroport_maker::asset::{Asset, AssetInfo};
use astroport_maker::collect::{CollectQuery, CollectReply, CollectStep, Collector};
use astroport_maker::contract::{instantiate, query_get_balances, query_get_config, set_config, validate_governance_percent};
use astroport_maker::distribution::{split, transfer_astro};
use astroport_maker::error::ContractError;
use astroport_maker::factory::assets_from_pairs;
use astroport_maker::msg::{InstantiateMsg, MakerMsg};
use astroport_maker::state::Config;

fn token(addr: &str) -> AssetInfo {
    AssetInfo::Token { contract_addr: addr.to_string() }
}

fn native(denom: &str) -> AssetInfo {
    AssetInfo::NativeToken { denom: denom.to_string() }
}

fn config(percent: u64) -> Config {
    Config {
        owner: "owner".to_string(),
        factory_contract: "factory".to_string(),
        staking_contract: "staking".to_string(),
        governance_contract: "governance".to_string(),
        governance_percent: percent,
        astro_token_contract: "astro".to_string(),
    }
}

fn transfer(recipient: &str, amount: u128) -> MakerMsg {
    MakerMsg::Transfer { token: "astro".to_string(), recipient: recipient.to_string(), amount }
}

fn same_msgs(a: &[MakerMsg], b: &[MakerMsg]) -> bool {
    format!("{:?}", a) == format!("{:?}", b)
}

#[test]
fn split_gives_governance_its_percent_rounded_down() {
    assert_eq!(split(1000, 30), (700, 300));
    assert_eq!(split(1001, 30), (701, 300));
    assert_eq!(split(99, 50), (50, 49));
    assert_eq!(split(7, 0), (7, 0));
    assert_eq!(split(7, 100), (0, 7));
    assert_eq!(split(0, 30), (0, 0));
}

#[test]
fn split_of_a_huge_amount_does_not_overflow() {
    let amount = u128::MAX;
    let (staking, governance) = split(amount, 50);
    assert_eq!(governance, amount / 2);
    assert_eq!(staking + governance, amount);
}

#[test]
fn transfer_astro_pays_staking_then_governance() {
    let msgs = transfer_astro(&config(30), 1000);
    assert!(same_msgs(&msgs, &[transfer("staking", 700), transfer("governance", 300)]));
}

#[test]
fn instantiate_keeps_the_addresses_and_the_sender() {
    let msg = InstantiateMsg {
        factory_contract: "factory".to_string(),
        staking_contract: "staking".to_string(),
        governance_contract: "governance".to_string(),
        governance_percent: 30,
        astro_token_contract: "astro".to_string(),
    };
    let cfg = instantiate("owner".to_string(), msg).unwrap();
    assert_eq!(format!("{:?}", cfg), format!("{:?}", config(30)));
}

#[test]
fn instantiate_refuses_more_than_a_hundred_percent() {
    let msg = InstantiateMsg {
        factory_contract: "factory".to_string(),
        staking_contract: "staking".to_string(),
        governance_contract: "governance".to_string(),
        governance_percent: 101,
        astro_token_contract: "astro".to_string(),
    };
    assert!(matches!(instantiate("owner".to_string(), msg), Err(ContractError::IncorrectGovernancePercent)));
}

#[test]
fn governance_percent_bounds() {
    assert!(validate_governance_percent(0).is_ok());
    assert!(validate_governance_percent(100).is_ok());
    assert!(matches!(validate_governance_percent(101), Err(ContractError::IncorrectGovernancePercent)));
}

#[test]
fn set_config_changes_only_the_percent() {
    let cfg = set_config(config(30), 60).unwrap();
    assert_eq!(format!("{:?}", cfg), format!("{:?}", config(60)));
    let response = query_get_config(&cfg);
    assert_eq!(response.governance_percent, 60);
    assert_eq!(response.owner, "owner");
    assert_eq!(response.factory_contract, "factory");
    assert_eq!(response.staking_contract, "staking");
    assert_eq!(response.governance_contract, "governance");
    assert_eq!(response.astro_token_contract, "astro");
    let again = set_config(cfg, 5).unwrap();
    assert_eq!(format!("{:?}", again), format!("{:?}", config(5)));
}

#[test]
fn set_config_refuses_more_than_a_hundred_percent() {
    assert!(matches!(set_config(config(30), 101), Err(ContractError::IncorrectGovernancePercent)));
}

#[test]
fn assets_from_pairs_names_each_asset_once() {
    let pairs = vec![
        [native("uusd"), token("astro")],
        [native("uluna"), native("uusd")],
        [token("astro"), token("xyz")],
    ];
    let assets = assets_from_pairs(&pairs);
    assert_eq!(assets, vec![native("uusd"), token("astro"), native("uluna"), token("xyz")]);
}

#[test]
fn assets_from_pairs_keeps_the_last_asset_of_a_name() {
    let pairs = vec![[token("abc"), native("uusd")], [native("abc"), token("astro")]];
    let assets = assets_from_pairs(&pairs);
    assert_eq!(assets, vec![native("abc"), native("uusd"), token("astro")]);
}

#[test]
fn assets_from_no_pairs_is_empty() {
    assert!(assets_from_pairs(&vec![]).is_empty());
}

#[test]
fn balances_list_only_what_is_held() {
    let assets = vec![native("uusd"), token("astro"), native("uluna")];
    let response = query_get_balances(&assets, &vec![5, 0, 7]);
    assert_eq!(
        response.balances,
        vec![Asset { info: native("uusd"), amount: 5 }, Asset { info: native("uluna"), amount: 7 }]
    );
}

fn expect_query(step: Result<CollectStep, ContractError>) -> CollectQuery {
    match step {
        Ok(CollectStep::Query(q)) => q,
        other => panic!("expected a query, got {:?}", other),
    }
}

#[test]
fn collect_swaps_fees_and_hands_out_astro() {
    let (mut collector, first) = Collector::new(config(30), None, Some(10));
    match first {
        CollectQuery::Pairs { factory, start_after, limit } => {
            assert_eq!(factory, "factory");
            assert!(start_after.is_none());
            assert_eq!(limit, Some(10));
        }
        other => panic!("unexpected {:?}", other),
    }
    let pairs = vec![[native("uusd"), token("astro")], [token("xyz"), native("uusd")], [native("uluna"), token("astro")]];
    // uusd: 1000 held, swapped for 500 ASTRO.
    match expect_query(collector.resume(CollectReply::Pairs(pairs))) {
        CollectQuery::Balance { asset } => assert_eq!(asset, native("uusd")),
        other => panic!("unexpected {:?}", other),
    }
    match expect_query(collector.resume(CollectReply::Balance(1000))) {
        CollectQuery::Pair { factory, asset_infos } => {
            assert_eq!(factory, "factory");
            assert_eq!(asset_infos, [native("uusd"), token("astro")]);
        }
        other => panic!("unexpected {:?}", other),
    }
    match expect_query(collector.resume(CollectReply::Pair(Some("pair_uusd".to_string())))) {
        CollectQuery::Simulation { pair, offer_asset } => {
            assert_eq!(pair, "pair_uusd");
            assert_eq!(offer_asset, Asset { info: native("uusd"), amount: 1000 });
        }
        other => panic!("unexpected {:?}", other),
    }
    // astro: 200 held, handed out as it is.
    match expect_query(collector.resume(CollectReply::Simulation(500))) {
        CollectQuery::Balance { asset } => assert_eq!(asset, token("astro")),
        other => panic!("unexpected {:?}", other),
    }
    // xyz: 40 held, swapped for 10 ASTRO.
    match expect_query(collector.resume(CollectReply::Balance(200))) {
        CollectQuery::Balance { asset } => assert_eq!(asset, token("xyz")),
        other => panic!("unexpected {:?}", other),
    }
    match expect_query(collector.resume(CollectReply::Balance(40))) {
        CollectQuery::Pair { asset_infos, .. } => assert_eq!(asset_infos, [token("xyz"), token("astro")]),
        other => panic!("unexpected {:?}", other),
    }
    expect_query(collector.resume(CollectReply::Pair(Some("pair_xyz".to_string()))));
    // uluna: nothing held.
    match expect_query(collector.resume(CollectReply::Simulation(10))) {
        CollectQuery::Balance { asset } => assert_eq!(asset, native("uluna")),
        other => panic!("unexpected {:?}", other),
    }
    let msgs = match collector.resume(CollectReply::Balance(0)) {
        Ok(CollectStep::Done(msgs)) => msgs,
        other => panic!("expected the messages, got {:?}", other),
    };
    assert!(!collector.is_waiting());
    let expected = vec![
        MakerMsg::SwapNative { pair: "pair_uusd".to_string(), denom: "uusd".to_string(), amount: 1000 },
        transfer("staking", 350),
        transfer("governance", 150),
        transfer("staking", 140),
        transfer("governance", 60),
        MakerMsg::SwapToken { token: "xyz".to_string(), pair: "pair_xyz".to_string(), amount: 40 },
        transfer("staking", 7),
        transfer("governance", 3),
    ];
    assert!(same_msgs(&msgs, &expected));
    let handed_out: u128 = msgs
        .iter()
        .map(|m| match m {
            MakerMsg::Transfer { amount, .. } => *amount,
            _ => 0,
        })
        .sum();
    assert_eq!(handed_out, 500 + 200 + 10);
}

#[test]
fn collect_without_pairs_sends_nothing() {
    let (mut collector, _) = Collector::new(config(30), None, None);
    match collector.resume(CollectReply::Pairs(vec![])) {
        Ok(CollectStep::Done(msgs)) => assert!(msgs.is_empty()),
        other => panic!("unexpected {:?}", other),
    }
}

#[test]
fn collect_fails_without_a_pair_to_astro() {
    let (mut collector, _) = Collector::new(config(30), None, None);
    expect_query(collector.resume(CollectReply::Pairs(vec![[native("uusd"), native("uluna")]])));
    expect_query(collector.resume(CollectReply::Balance(3)));
    match collector.resume(CollectReply::Pair(None)) {
        Err(ContractError::PairNotFound(from, to)) => {
            assert_eq!(from, native("uusd"));
            assert_eq!(to, token("astro"));
        }
        other => panic!("unexpected {:?}", other),
    }
    assert!(!collector.is_waiting());
}

#[test]
fn collector_expects_only_the_answer_it_asked_for() {
    let (collector, _) = Collector::new(config(30), None, None);
    assert!(collector.expects_reply(&CollectReply::Pairs(vec![])));
    assert!(!collector.expects_reply(&CollectReply::Balance(1)));
    assert!(!collector.expects_reply(&CollectReply::Pair(None)));
    assert!(!collector.expects_reply(&CollectReply::Simulation(1)));
}

#[test]
fn balances_and_collection_deal_with_the_same_assets() {
    let pairs = vec![[native("uusd"), token("astro")], [native("uluna"), token("astro")]];
    let assets = assets_from_pairs(&pairs);
    let balances = vec![100, 20, 0];
    let answer = query_get_balances(&assets, &balances);
    assert_eq!(
        answer.balances,
        vec![Asset { info: native("uusd"), amount: 100 }, Asset { info: token("astro"), amount: 20 }]
    );
    let (mut collector, _) = Collector::new(config(50), None, None);
    collector.resume(CollectReply::Pairs(pairs)).unwrap();
    collector.resume(CollectReply::Balance(100)).unwrap();
    collector.resume(CollectReply::Pair(Some("pair".to_string()))).unwrap();
    collector.resume(CollectReply::Simulation(40)).unwrap();
    collector.resume(CollectReply::Balance(20)).unwrap();
    let msgs = match collector.resume(CollectReply::Balance(0)) {
        Ok(CollectStep::Done(msgs)) => msgs,
        other => panic!("unexpected {:?}", other),
    };
    let expected = vec![
        MakerMsg::SwapNative { pair: "pair".to_string(), denom: "uusd".to_string(), amount: 100 },
        transfer("staking", 20),
        transfer("governance", 20),
        transfer("staking", 10),
        transfer("governance", 10),
    ];
    assert_eq!(msgs.len(), 3 + 2);
    assert!(same_msgs(&msgs, &expected));
}
