//! How the collected ASTRO is split between staking and governance.

use crate::msg::{msgs_view, MakerMsg, MakerMsgView};
use crate::state::Config;
use vstd::prelude::*;

verus! {

/// The governance part of `amount`: `amount * percent / 100`, rounded down.
pub open spec fn governance_amount(amount: u128, percent: u64) -> int {
    (amount * percent) / 100
}

/// The staking part of `amount`: what governance does not get.
pub open spec fn staking_amount(amount: u128, percent: u64) -> int {
    amount - governance_amount(amount, percent)
}

/// Whether the governance part of `amount` fits in `amount`, so that the split is defined.
pub open spec fn split_fits(amount: u128, percent: u64) -> bool {
    governance_amount(amount, percent) <= amount
}

/// The two transfers that hand out `amount` of ASTRO: first to staking, then to governance.
pub open spec fn transfer_msgs(cfg: Config, amount: u128) -> Seq<MakerMsgView> {
    seq![
        MakerMsgView::Transfer {
            token: cfg.astro_token_contract@,
            recipient: cfg.staking_contract@,
            amount: staking_amount(amount, cfg.governance_percent) as u128,
        },
        MakerMsgView::Transfer {
            token: cfg.astro_token_contract@,
            recipient: cfg.governance_contract@,
            amount: governance_amount(amount, cfg.governance_percent) as u128,
        },
    ]
}

/// `value * numerator / denominator`, rounded down, from `cosmwasm_std::Uint128::multiply_ratio`.
/// That function panics on a zero denominator and when the quotient does not fit in 128 bits;
/// both are excluded here.
#[verifier::external_body]
fn multiply_ratio(value: u128, numerator: u128, denominator: u128) -> (r: u128)
    requires
        denominator != 0,
        (value * numerator) / (denominator as int) <= u128::MAX,
    ensures
        r == (value * numerator) / (denominator as int),
{
    cosmwasm_std::Uint128::new(value).multiply_ratio(numerator, denominator).u128()
}

/// With a percentage of at most one hundred, the split is always defined.
pub proof fn lemma_split_fits(amount: u128, percent: u64)
    requires
        percent <= 100,
    ensures
        split_fits(amount, percent),
{
    assert((amount * percent) / 100 <= amount) by (nonlinear_arith)
        requires
            percent <= 100,
            amount >= 0,
    ;
}

/// The split of `amount` between staking and governance: the governance part and the staking part.
pub fn split(amount: u128, percent: u64) -> (r: (u128, u128))
    requires
        split_fits(amount, percent),
    ensures
        r.1 == governance_amount(amount, percent),
        r.0 == staking_amount(amount, percent),
        r.0 + r.1 == amount,
        100 * r.1 <= amount * percent,
        amount * percent < 100 * (r.1 + 1),
{
    proof {
        split_conserves(amount, percent);
    }
    let governance = multiply_ratio(amount, percent as u128, 100);
    (amount - governance, governance)
}

/// The messages that send `amount` of ASTRO to the staking and the governance contracts,
/// governance getting `governance_percent` percent of it, rounded down.
pub fn transfer_astro(cfg: &Config, amount: u128) -> (r: Vec<MakerMsg>)
    requires
        split_fits(amount, cfg.governance_percent),
    ensures
        msgs_view(r@) == transfer_msgs(*cfg, amount),
        r@.len() == 2,
        r@[0] matches MakerMsg::Transfer { token, recipient, .. }
            && token@ == cfg.astro_token_contract@
            && recipient@ == cfg.staking_contract@,
        r@[1] matches MakerMsg::Transfer { token, recipient, .. }
            && token@ == cfg.astro_token_contract@
            && recipient@ == cfg.governance_contract@,
        r@[0]->Transfer_amount + r@[1]->Transfer_amount == amount,
        100 * r@[1]->Transfer_amount <= amount * cfg.governance_percent,
        amount * cfg.governance_percent < 100 * (r@[1]->Transfer_amount + 1),
{
    let (staking, governance) = split(amount, cfg.governance_percent);
    let mut result: Vec<MakerMsg> = Vec::new();
    result.push(
        MakerMsg::Transfer {
            token: cfg.astro_token_contract.clone(),
            recipient: cfg.staking_contract.clone(),
            amount: staking,
        },
    );
    result.push(
        MakerMsg::Transfer {
            token: cfg.astro_token_contract.clone(),
            recipient: cfg.governance_contract.clone(),
            amount: governance,
        },
    );
    assert(msgs_view(result@) =~= transfer_msgs(*cfg, amount));
    result
}

/// Law: the split hands out exactly the amount it was given, and governance gets no
/// more than its percentage.
pub proof fn split_conserves(amount: u128, percent: u64)
    requires
        split_fits(amount, percent),
    ensures
        staking_amount(amount, percent) + governance_amount(amount, percent) == amount,
        0 <= governance_amount(amount, percent),
        100 * governance_amount(amount, percent) <= amount * percent,
        amount * percent < 100 * (governance_amount(amount, percent) + 1),
{
    let p = amount * percent;
    assert(0 <= p);
    assert(0 <= p / 100 && 100 * (p / 100) <= p && p < 100 * (p / 100 + 1)) by (nonlinear_arith)
        requires
            0 <= p,
    ;
}

/// Law: handing out `amount` of ASTRO makes two ASTRO transfers, the first to staking and the
/// second to governance; together they carry exactly `amount`, and governance's carries
/// `governance_percent` percent of it, rounded down.
pub proof fn transfer_msgs_split_by_percent(cfg: Config, amount: u128)
    requires
        split_fits(amount, cfg.governance_percent),
    ensures
        transfer_msgs(cfg, amount).len() == 2,
        transfer_msgs(cfg, amount)[0] matches MakerMsgView::Transfer { token, recipient, .. }
            && token == cfg.astro_token_contract@
            && recipient == cfg.staking_contract@,
        transfer_msgs(cfg, amount)[1] matches MakerMsgView::Transfer { token, recipient, .. }
            && token == cfg.astro_token_contract@
            && recipient == cfg.governance_contract@,
        transfer_msgs(cfg, amount)[0]->Transfer_amount + transfer_msgs(cfg, amount)[1]->Transfer_amount == amount,
        100 * transfer_msgs(cfg, amount)[1]->Transfer_amount <= amount * cfg.governance_percent,
        amount * cfg.governance_percent < 100 * (transfer_msgs(cfg, amount)[1]->Transfer_amount + 1),
{
    split_conserves(amount, cfg.governance_percent);
}

} // verus!
