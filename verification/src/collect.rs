//! Collecting the fees: a state machine that asks for the facts it needs one at a time
//! (the factory's pairs, the balances, the pairs to swap on, the swap returns) and, from
//! the answers, builds the messages that swap every fee into ASTRO and hand the ASTRO out.

use crate::asset::{asset_info_equal, asset_key, is_native_token, Asset, AssetInfo, AssetInfoView, AssetView};
use crate::distribution::{lemma_split_fits, transfer_astro, transfer_msgs};
use crate::error::ContractError;
use crate::factory::{assets_from_pairs, deduplicated, infos_view, pair_assets};
use crate::msg::{msgs_view, MakerMsg, MakerMsgView};
use crate::contract::nonzero_balances;
use crate::state::Config;
use vstd::prelude::*;

verus! {

/// A fact that the collector needs before it can go on.
#[derive(Debug)]
pub enum CollectQuery {
    /// The pairs that `factory` lists after `start_after`, at most `limit` of them.
    Pairs { factory: String, start_after: Option<[AssetInfo; 2]>, limit: Option<u32> },
    /// How much of `asset` the maker holds.
    Balance { asset: AssetInfo },
    /// The pair of `asset_infos` that `factory` knows.
    Pair { factory: String, asset_infos: [AssetInfo; 2] },
    /// What the pair `pair` would return for `offer_asset`.
    Simulation { pair: String, offer_asset: Asset },
}

/// The answer to a [`CollectQuery`].
#[derive(Debug)]
pub enum CollectReply {
    /// The asset pairs that the factory listed, in its order.
    Pairs(Vec<[AssetInfo; 2]>),
    /// The balance asked for.
    Balance(u128),
    /// The address of the pair asked for, or nothing where the factory has no such pair.
    Pair(Option<String>),
    /// The amount of ASTRO that the simulated swap returns.
    Simulation(u128),
}

/// What the collector does next.
#[derive(Debug)]
pub enum CollectStep {
    /// It needs this fact.
    Query(CollectQuery),
    /// It is done: these messages are to be sent, in this order.
    Done(Vec<MakerMsg>),
}

/// Where the collector stands.
enum Stage {
    Pairs,
    Balance,
    Pair { amount_in: u128 },
    Simulation { amount_in: u128, pair: String },
    Finished,
}

/// The mathematical value of where the collector stands.
pub enum StageView {
    /// It waits for the factory's pairs.
    Pairs,
    /// It waits for the balance of the current asset.
    Balance,
    /// It waits for the pair on which to swap `amount_in` of the current asset.
    Pair { amount_in: u128 },
    /// It waits for what `pair` returns for `amount_in` of the current asset.
    Simulation { amount_in: u128, pair: Seq<char> },
    /// It has answered, with messages or an error.
    Finished,
}

/// The state of one collection of fees.
pub struct Collector {
    cfg: Config,
    assets: Vec<AssetInfo>,
    next: usize,
    messages: Vec<MakerMsg>,
    stage: Stage,
    outcomes: Ghost<Seq<Outcome>>,
}

/// What was learned of one asset: the balance held, and, where it was swapped, the pair and
/// the ASTRO that the swap returns.
pub struct Outcome {
    pub balance: u128,
    pub pair: Seq<char>,
    pub amount_out: u128,
}

/// The messages for the first `outcomes.len()` assets, asset after asset.
pub open spec fn collected(cfg: Config, assets: Seq<AssetInfoView>, outcomes: Seq<Outcome>) -> Seq<MakerMsgView>
    decreases outcomes.len(),
{
    if outcomes.len() == 0 {
        Seq::empty()
    } else {
        let n = outcomes.len() - 1;
        let o = outcomes[n];
        collected(cfg, assets, outcomes.drop_last()) + asset_messages(cfg, assets[n], o.balance, o.pair, o.amount_out)
    }
}

/// The message that swaps `amount` of `asset` on `pair`.
pub open spec fn swap_msg(asset: AssetInfoView, amount: u128, pair: Seq<char>) -> MakerMsgView {
    match asset {
        AssetInfoView::NativeToken { denom } => MakerMsgView::SwapNative { pair, denom, amount },
        AssetInfoView::Token { contract_addr } => MakerMsgView::SwapToken { token: contract_addr, pair, amount },
    }
}

/// The messages that one asset of the factory's pairs gives rise to, when the maker holds
/// `balance` of it: nothing for no balance; ASTRO itself is handed out as it is; any other
/// asset is swapped on `pair` and the `amount_out` of ASTRO that this returns is handed out.
pub open spec fn asset_messages(
    cfg: Config,
    asset: AssetInfoView,
    balance: u128,
    pair: Seq<char>,
    amount_out: u128,
) -> Seq<MakerMsgView> {
    if balance == 0 {
        Seq::empty()
    } else if asset == cfg.astro() {
        transfer_msgs(cfg, balance)
    } else {
        seq![swap_msg(asset, balance, pair)] + transfer_msgs(cfg, amount_out)
    }
}

impl Collector {
    /// The configuration that the collection runs with.
    pub closed spec fn config(&self) -> Config {
        self.cfg
    }

    /// The assets whose fees are collected, each named once.
    pub closed spec fn assets(&self) -> Seq<AssetInfoView> {
        infos_view(self.assets@)
    }

    /// The index of the current asset.
    pub closed spec fn position(&self) -> int {
        self.next as int
    }

    /// The messages built so far.
    pub closed spec fn messages(&self) -> Seq<MakerMsgView> {
        msgs_view(self.messages@)
    }

    /// Where the collector stands.
    pub closed spec fn stage(&self) -> StageView {
        match self.stage {
            Stage::Pairs => StageView::Pairs,
            Stage::Balance => StageView::Balance,
            Stage::Pair { amount_in } => StageView::Pair { amount_in },
            Stage::Simulation { amount_in, pair } => StageView::Simulation { amount_in, pair: pair@ },
            Stage::Finished => StageView::Finished,
        }
    }

    /// What was learned of the assets dealt with so far.
    pub closed spec fn outcomes(&self) -> Seq<Outcome> {
        self.outcomes@
    }

    /// The collector's state is consistent: the messages built are those of the assets dealt
    /// with, and the stage fits the position.
    pub closed spec fn wf(&self) -> bool {
        &&& self.cfg.valid()
        &&& self.outcomes@.len() == self.next
        &&& !(self.stage is Finished) ==> self.messages() == collected(self.cfg, self.assets(), self.outcomes@)
        &&& self.next <= self.assets.len()
        &&& match self.stage {
            Stage::Pairs => self.next == 0 && self.assets.len() == 0 && self.messages.len() == 0,
            Stage::Finished => true,
            Stage::Balance => self.next < self.assets.len(),
            Stage::Pair { amount_in } | Stage::Simulation { amount_in, .. } => {
                &&& self.next < self.assets.len()
                &&& amount_in != 0
                &&& self.assets@[self.next as int]@ != self.cfg.astro()
            },
        }
    }

    /// The current asset.
    pub open spec fn current(&self) -> AssetInfoView {
        self.assets()[self.position()]
    }

    /// `reply` answers what the collector waits for.
    pub open spec fn expects(&self, reply: &CollectReply) -> bool {
        match self.stage() {
            StageView::Pairs => reply is Pairs,
            StageView::Balance => reply is Balance,
            StageView::Pair { .. } => reply is Pair,
            StageView::Simulation { .. } => reply is Simulation,
            StageView::Finished => false,
        }
    }

    /// What consistency of the collector's state gives its callers: a valid configuration,
    /// one outcome for each asset dealt with, the messages of those outcomes while the
    /// collection runs, and a current asset while an answer about it is awaited.
    pub proof fn lemma_wf(&self)
        requires
            self.wf(),
        ensures
            self.config().valid(),
            0 <= self.position() <= self.assets().len(),
            self.outcomes().len() == self.position(),
            !(self.stage() is Finished) ==> self.messages() == collected(self.config(), self.assets(), self.outcomes()),
            self.stage() is Pairs ==> self.assets().len() == 0 && self.messages().len() == 0,
            self.stage() is Balance ==> self.position() < self.assets().len(),
            self.stage() matches StageView::Pair { amount_in } ==> {
                &&& self.position() < self.assets().len()
                &&& amount_in != 0
                &&& self.current() != self.config().astro()
            },
            self.stage() matches StageView::Simulation { amount_in, .. } ==> {
                &&& self.position() < self.assets().len()
                &&& amount_in != 0
                &&& self.current() != self.config().astro()
            },
    {
    }

    /// Whether `reply` answers what the collector waits for.
    pub fn expects_reply(&self, reply: &CollectReply) -> (r: bool)
        ensures
            r == self.expects(reply),
    {
        match (&self.stage, reply) {
            (Stage::Pairs, CollectReply::Pairs(_)) => true,
            (Stage::Balance, CollectReply::Balance(_)) => true,
            (Stage::Pair { .. }, CollectReply::Pair(_)) => true,
            (Stage::Simulation { .. }, CollectReply::Simulation(_)) => true,
            _ => false,
        }
    }

    /// Whether the collector waits for an answer.
    pub fn is_waiting(&self) -> (r: bool)
        ensures
            r == !(self.stage() is Finished),
    {
        match self.stage {
            Stage::Finished => false,
            _ => true,
        }
    }

    /// Starts collecting the fees of the pairs that the factory lists after `start_after`,
    /// at most `limit` of them; the first thing to learn is that list of pairs.
    pub fn new(cfg: Config, start_after: Option<[AssetInfo; 2]>, limit: Option<u32>) -> (r: (Collector, CollectQuery))
        requires
            cfg.valid(),
        ensures
            r.0.wf(),
            r.0.config() == cfg,
            r.0.stage() is Pairs,
            r.0.messages() == Seq::<MakerMsgView>::empty(),
            r.1 == (CollectQuery::Pairs { factory: cfg.factory_contract, start_after, limit }),
    {
        let factory = cfg.factory_contract.clone();
        let collector = Collector {
            cfg,
            assets: Vec::new(),
            next: 0,
            messages: Vec::new(),
            stage: Stage::Pairs,
            outcomes: Ghost(Seq::empty()),
        };
        assert(collector.messages() =~= Seq::<MakerMsgView>::empty());
        (collector, CollectQuery::Pairs { factory, start_after, limit })
    }

    /// Moves on to the current asset: asks for its balance, or, past the last asset,
    /// hands over all the messages built.
    fn advance(&mut self) -> (r: Result<CollectStep, ContractError>)
        requires
            old(self).cfg.valid(),
            old(self).next <= old(self).assets.len(),
            old(self).outcomes@.len() == old(self).next,
            old(self).messages() == collected(old(self).cfg, old(self).assets(), old(self).outcomes@),
        ensures
            final(self).wf(),
            final(self).config() == old(self).config(),
            final(self).assets() == old(self).assets(),
            final(self).position() == old(self).position(),
            final(self).outcomes() == old(self).outcomes(),
            advanced(*final(self), old(self).messages(), r),
    {
        if self.next == self.assets.len() {
            let mut out: Vec<MakerMsg> = Vec::new();
            std::mem::swap(&mut out, &mut self.messages);
            self.stage = Stage::Finished;
            Ok(CollectStep::Done(out))
        } else {
            self.stage = Stage::Balance;
            Ok(CollectStep::Query(CollectQuery::Balance { asset: self.assets[self.next].clone() }))
        }
    }

    /// Takes the answer to the last query and says what comes next: another query, the
    /// messages to send, or the error that ends the collection.
    pub fn resume(&mut self, reply: CollectReply) -> (r: Result<CollectStep, ContractError>)
        requires
            old(self).wf(),
            old(self).expects(&reply),
        ensures
            final(self).wf(),
            final(self).config() == old(self).config(),
            r matches Ok(CollectStep::Done(msgs)) ==> {
                &&& final(self).outcomes().len() == final(self).assets().len()
                &&& final(self).position() == final(self).assets().len()
                &&& msgs_view(msgs@) == collected(final(self).config(), final(self).assets(), final(self).outcomes())
            },
            r matches Ok(CollectStep::Query(CollectQuery::Balance { asset })) ==> {
                &&& 0 <= final(self).position() < final(self).assets().len()
                &&& asset@ == final(self).assets()[final(self).position()]
            },
            r matches Ok(CollectStep::Query(CollectQuery::Pair { factory, asset_infos })) ==> {
                &&& reply is Balance
                &&& factory@ == old(self).config().factory_contract@
                &&& asset_infos@[0]@ == old(self).assets()[old(self).position()]
                &&& asset_infos@[1]@ == (AssetInfoView::Token { contract_addr: old(self).config().astro_token_contract@ })
                &&& final(self).stage() == (StageView::Pair { amount_in: reply->Balance_0 })
            },
            r matches Ok(CollectStep::Query(CollectQuery::Simulation { pair, offer_asset })) ==> {
                &&& reply matches CollectReply::Pair(Some(p)) && pair@ == p@
                &&& offer_asset.info@ == old(self).assets()[old(self).position()]
                &&& offer_asset.amount == old(self).stage()->Pair_amount_in
            },
            r matches Err(ContractError::PairNotFound(from, to)) ==> {
                &&& reply matches CollectReply::Pair(None)
                &&& from@ == old(self).assets()[old(self).position()]
                &&& to@ == (AssetInfoView::Token { contract_addr: old(self).config().astro_token_contract@ })
            },
            reply is Pairs ==> final(self).position() == 0 && final(self).outcomes().len() == 0,
            reply matches CollectReply::Balance(b) ==> if b == 0 || old(self).assets()[old(self).position()]
                == old(self).config().astro() {
                &&& final(self).position() == old(self).position() + 1
                &&& final(self).assets() == old(self).assets()
                &&& final(self).outcomes() == old(self).outcomes().push(
                    Outcome { balance: b, pair: Seq::empty(), amount_out: 0 },
                )
            } else {
                &&& final(self).position() == old(self).position()
                &&& final(self).assets() == old(self).assets()
                &&& final(self).outcomes() == old(self).outcomes()
            },
            reply matches CollectReply::Pair(Some(_)) ==> {
                &&& final(self).position() == old(self).position()
                &&& final(self).assets() == old(self).assets()
                &&& final(self).outcomes() == old(self).outcomes()
            },
            reply matches CollectReply::Simulation(out) ==> {
                &&& final(self).position() == old(self).position() + 1
                &&& final(self).assets() == old(self).assets()
                &&& final(self).outcomes() == old(self).outcomes().push(
                    Outcome {
                        balance: old(self).stage()->Simulation_amount_in,
                        pair: old(self).stage()->Simulation_pair,
                        amount_out: out,
                    },
                )
            },
            match reply {
                CollectReply::Pairs(pairs) => after_pairs(*final(self), pairs@, r),
                CollectReply::Balance(balance) => after_balance(*old(self), *final(self), balance, r),
                CollectReply::Pair(found) => after_pair(*old(self), *final(self), found, r),
                CollectReply::Simulation(amount_out) => after_simulation(*old(self), *final(self), amount_out, r),
            },
    {
        proof {
            lemma_split_fits_all(self.cfg.governance_percent);
        }
        match reply {
            CollectReply::Pairs(pairs) => {
                self.assets = assets_from_pairs(&pairs);
                self.next = 0;
                assert(self.outcomes@ =~= Seq::<Outcome>::empty());
                assert(self.messages() =~= Seq::<MakerMsgView>::empty());
                self.advance()
            },
            CollectReply::Balance(balance) => {
                let asset = self.assets[self.next].clone();
                if balance == 0 {
                    proof {
                        lemma_collected_push(self.cfg, self.assets(), self.outcomes@, Outcome { balance, pair: Seq::empty(), amount_out: 0 });
                    }
                    self.outcomes = Ghost(self.outcomes@.push(Outcome { balance, pair: Seq::empty(), amount_out: 0 }));
                    self.next = self.next + 1;
                    self.advance()
                } else {
                    let astro = AssetInfo::Token { contract_addr: self.cfg.astro_token_contract.clone() };
                    if asset_info_equal(&asset, &astro) {
                        let ghost before = self.messages();
                        let mut sent = transfer_astro(&self.cfg, balance);
                        self.messages.append(&mut sent);
                        assert(self.messages() =~= before + transfer_msgs(self.cfg, balance));
                        proof {
                            lemma_collected_push(self.cfg, self.assets(), self.outcomes@, Outcome { balance, pair: Seq::empty(), amount_out: 0 });
                        }
                        self.outcomes = Ghost(self.outcomes@.push(Outcome { balance, pair: Seq::empty(), amount_out: 0 }));
                        self.next = self.next + 1;
                        self.advance()
                    } else {
                        self.stage = Stage::Pair { amount_in: balance };
                        let factory = self.cfg.factory_contract.clone();
                        Ok(CollectStep::Query(CollectQuery::Pair { factory, asset_infos: [asset, astro] }))
                    }
                }
            },
            CollectReply::Pair(found) => {
                let amount_in = match self.stage {
                    Stage::Pair { amount_in } => amount_in,
                    _ => {
                        assert(false);
                        0
                    },
                };
                let asset = self.assets[self.next].clone();
                match found {
                    None => {
                        self.stage = Stage::Finished;
                        let astro = AssetInfo::Token { contract_addr: self.cfg.astro_token_contract.clone() };
                        Err(ContractError::PairNotFound(asset, astro))
                    },
                    Some(pair) => {
                        self.stage = Stage::Simulation { amount_in, pair: pair.clone() };
                        Ok(CollectStep::Query(CollectQuery::Simulation { pair, offer_asset: Asset { info: asset, amount: amount_in } }))
                    },
                }
            },
            CollectReply::Simulation(amount_out) => {
                let (amount_in, pair) = match &self.stage {
                    Stage::Simulation { amount_in, pair } => (*amount_in, pair.clone()),
                    _ => {
                        assert(false);
                        (0, String::new())
                    },
                };
                let asset = self.assets[self.next].clone();
                let ghost pair_view = pair@;
                let ghost expected = asset_messages(self.cfg, asset@, amount_in, pair@, amount_out);
                let swap = swap_message(&asset, amount_in, pair);
                let ghost before = self.messages();
                let ghost swap_view = swap@;
                self.messages.push(swap);
                let mut sent = transfer_astro(&self.cfg, amount_out);
                self.messages.append(&mut sent);
                assert(expected == seq![swap_view] + transfer_msgs(self.cfg, amount_out));
                assert(self.messages() =~= before + expected);
                proof {
                    lemma_collected_push(self.cfg, self.assets(), self.outcomes@, Outcome { balance: amount_in, pair: pair_view, amount_out });
                }
                self.outcomes = Ghost(self.outcomes@.push(Outcome { balance: amount_in, pair: pair_view, amount_out }));
                self.next = self.next + 1;
                self.advance()
            },
        }
    }
}

/// The messages for one more asset come after those for the assets before it.
proof fn lemma_collected_push(cfg: Config, assets: Seq<AssetInfoView>, outcomes: Seq<Outcome>, o: Outcome)
    ensures
        collected(cfg, assets, outcomes.push(o)) == collected(cfg, assets, outcomes) + asset_messages(
            cfg,
            assets[outcomes.len() as int],
            o.balance,
            o.pair,
            o.amount_out,
        ),
{
    assert(outcomes.push(o).drop_last() =~= outcomes);
}

/// With a valid configuration, every amount can be split.
proof fn lemma_split_fits_all(percent: u64)
    requires
        percent <= 100,
    ensures
        forall|amount: u128| #[trigger] crate::distribution::split_fits(amount, percent),
{
    assert forall|amount: u128| #[trigger] crate::distribution::split_fits(amount, percent) by {
        lemma_split_fits(amount, percent);
    }
}

/// The message that offers `amount` of `asset` to `pair` for a swap: a native asset is sent
/// along with a `Swap` to the pair, a token is sent to the pair with a `Swap` hook.
fn swap_message(asset: &AssetInfo, amount: u128, pair: String) -> (r: MakerMsg)
    ensures
        r@ == swap_msg(asset@, amount, pair@),
        (r is SwapNative) == (asset@ is NativeToken),
        (r is SwapToken) == (asset@ is Token),
        r matches MakerMsg::SwapNative { pair: p, denom, amount: a } ==> p@ == pair@ && denom@ == asset@.key() && a
            == amount,
        r matches MakerMsg::SwapToken { token, pair: p, amount: a } ==> p@ == pair@ && token@ == asset@.key() && a
            == amount,
{
    if is_native_token(asset) {
        MakerMsg::SwapNative { pair, denom: asset_key(asset), amount }
    } else {
        MakerMsg::SwapToken { token: asset_key(asset), pair, amount }
    }
}

/// After moving on with `total` messages built: either the collector asks for the balance of
/// the current asset, or, past the last one, it hands over `total`.
pub open spec fn advanced(c: Collector, total: Seq<MakerMsgView>, r: Result<CollectStep, ContractError>) -> bool {
    if c.position() == c.assets().len() {
        &&& c.stage() is Finished
        &&& r matches Ok(CollectStep::Done(msgs)) && msgs_view(msgs@) == total
    } else {
        &&& c.stage() is Balance
        &&& c.messages() == total
        &&& r matches Ok(CollectStep::Query(CollectQuery::Balance { asset })) && asset@ == c.current()
    }
}

/// After the factory listed `pairs`: the assets are those of the pairs, each named once,
/// and the collector moves on to the first of them.
pub open spec fn after_pairs(c: Collector, pairs: Seq<[AssetInfo; 2]>, r: Result<CollectStep, ContractError>) -> bool {
    &&& deduplicated(pair_assets(pairs), c.assets())
    &&& c.position() == 0
    &&& advanced(c, Seq::empty(), r)
}

/// After learning that the maker holds `balance` of the current asset: nothing to do for
/// none; ASTRO is handed out; any other asset calls for the pair that swaps it into ASTRO.
pub open spec fn after_balance(
    old: Collector,
    c: Collector,
    balance: u128,
    r: Result<CollectStep, ContractError>,
) -> bool {
    let asset = old.current();
    let cfg = old.config();
    &&& c.assets() == old.assets()
    &&& if balance == 0 {
        c.position() == old.position() + 1 && advanced(c, old.messages(), r)
    } else if asset == cfg.astro() {
        c.position() == old.position() + 1 && advanced(c, old.messages() + transfer_msgs(cfg, balance), r)
    } else {
        &&& c.position() == old.position()
        &&& c.messages() == old.messages()
        &&& c.stage() == (StageView::Pair { amount_in: balance })
        &&& r matches Ok(CollectStep::Query(CollectQuery::Pair { factory, asset_infos }))
            && factory@ == cfg.factory_contract@
            && asset_infos@[0]@ == asset
            && asset_infos@[1]@ == cfg.astro()
    }
}

/// After asking the factory for the pair of the current asset and ASTRO: without one the
/// collection fails; with one, the collector asks what the swap would return.
pub open spec fn after_pair(
    old: Collector,
    c: Collector,
    found: Option<String>,
    r: Result<CollectStep, ContractError>,
) -> bool {
    let asset = old.current();
    let amount_in = old.stage()->Pair_amount_in;
    match found {
        None => {
            &&& c.stage() is Finished
            &&& r matches Err(ContractError::PairNotFound(from, to))
                && from@ == asset
                && to@ == old.config().astro()
        },
        Some(pair) => {
            &&& c.assets() == old.assets()
            &&& c.position() == old.position()
            &&& c.messages() == old.messages()
            &&& c.stage() == (StageView::Simulation { amount_in, pair: pair@ })
            &&& r matches Ok(CollectStep::Query(CollectQuery::Simulation { pair: p, offer_asset }))
                && p@ == pair@
                && offer_asset@ == (AssetView { info: asset, amount: amount_in })
        },
    }
}

/// After learning that the swap returns `amount_out` of ASTRO: the swap and the hand-out of
/// that ASTRO are added, and the collector moves on to the next asset.
pub open spec fn after_simulation(
    old: Collector,
    c: Collector,
    amount_out: u128,
    r: Result<CollectStep, ContractError>,
) -> bool {
    let asset = old.current();
    let amount_in = old.stage()->Simulation_amount_in;
    let pair = old.stage()->Simulation_pair;
    &&& c.assets() == old.assets()
    &&& c.position() == old.position() + 1
    &&& advanced(
        c,
        old.messages() + asset_messages(old.config(), asset, amount_in, pair, amount_out),
        r,
    )
}

/// The ASTRO that a list of messages hands out: the sum of its transfers.
pub open spec fn transferred(msgs: Seq<MakerMsgView>) -> int
    decreases msgs.len(),
{
    if msgs.len() == 0 {
        0
    } else {
        transferred(msgs.drop_last()) + match msgs.last() {
            MakerMsgView::Transfer { amount, .. } => amount as int,
            _ => 0,
        }
    }
}

/// The message goes to the ASTRO token and pays staking or governance.
pub open spec fn pays_staking_or_governance(cfg: Config, m: MakerMsgView) -> bool {
    m matches MakerMsgView::Transfer { token, recipient, .. }
        && token == cfg.astro_token_contract@
        && (recipient == cfg.staking_contract@ || recipient == cfg.governance_contract@)
}

/// Law: what one asset gives rise to hands out exactly the ASTRO that the maker holds or gets
/// for it (nothing for no balance, the balance itself for ASTRO, the swap's return otherwise),
/// every transfer pays ASTRO to staking or governance, ASTRO is never swapped, and any other
/// asset is swapped in full.
pub proof fn asset_messages_hand_out_the_astro(
    cfg: Config,
    asset: AssetInfoView,
    balance: u128,
    pair: Seq<char>,
    amount_out: u128,
)
    requires
        cfg.valid(),
    ensures
        transferred(asset_messages(cfg, asset, balance, pair, amount_out)) == if balance == 0 {
            0
        } else if asset == cfg.astro() {
            balance as int
        } else {
            amount_out as int
        },
        asset == cfg.astro() || balance == 0 ==> forall|i: int|
            0 <= i < asset_messages(cfg, asset, balance, pair, amount_out).len() ==> pays_staking_or_governance(
                cfg,
                #[trigger] asset_messages(cfg, asset, balance, pair, amount_out)[i],
            ),
        asset != cfg.astro() && balance != 0 ==> {
            let msgs = asset_messages(cfg, asset, balance, pair, amount_out);
            &&& msgs[0] == swap_msg(asset, balance, pair)
            &&& forall|i: int| 1 <= i < msgs.len() ==> pays_staking_or_governance(cfg, #[trigger] msgs[i])
        },
{
    let msgs = asset_messages(cfg, asset, balance, pair, amount_out);
    reveal_with_fuel(transferred, 4);
    if balance == 0 {
    } else if asset == cfg.astro() {
        lemma_split_fits(balance, cfg.governance_percent);
        crate::distribution::split_conserves(balance, cfg.governance_percent);
        assert(msgs.drop_last().drop_last() =~= Seq::<MakerMsgView>::empty());
    } else {
        lemma_split_fits(amount_out, cfg.governance_percent);
        crate::distribution::split_conserves(amount_out, cfg.governance_percent);
        assert(msgs.drop_last().drop_last().drop_last() =~= Seq::<MakerMsgView>::empty());
        assert(msgs.drop_last().drop_last() =~= seq![swap_msg(asset, balance, pair)]);
        assert(transferred(msgs.drop_last().drop_last()) == 0);
    }
}

/// The transfers of two lists of messages add up.
proof fn lemma_transferred_concat(a: Seq<MakerMsgView>, b: Seq<MakerMsgView>)
    ensures
        transferred(a + b) == transferred(a) + transferred(b),
    decreases b.len(),
{
    if b.len() == 0 {
        assert(a + b =~= a);
    } else {
        lemma_transferred_concat(a, b.drop_last());
        assert((a + b).drop_last() =~= a + b.drop_last());
        assert((a + b).last() == b.last());
    }
}

/// The ASTRO that the maker holds or gets for the first `outcomes.len()` assets: each
/// ASTRO balance as it is, and what the swap of each other held asset returns.
pub open spec fn astro_received(cfg: Config, assets: Seq<AssetInfoView>, outcomes: Seq<Outcome>) -> int
    decreases outcomes.len(),
{
    if outcomes.len() == 0 {
        0
    } else {
        let n = outcomes.len() - 1;
        let o = outcomes[n];
        astro_received(cfg, assets, outcomes.drop_last()) + if o.balance == 0 {
            0
        } else if assets[n] == cfg.astro() {
            o.balance as int
        } else {
            o.amount_out as int
        }
    }
}

/// Law: a whole collection hands out, between staking and governance, exactly the ASTRO that
/// the maker held or got from its swaps.
pub proof fn collection_hands_out_all_astro(cfg: Config, assets: Seq<AssetInfoView>, outcomes: Seq<Outcome>)
    requires
        cfg.valid(),
    ensures
        transferred(collected(cfg, assets, outcomes)) == astro_received(cfg, assets, outcomes),
    decreases outcomes.len(),
{
    if outcomes.len() > 0 {
        let n = outcomes.len() - 1;
        let o = outcomes[n];
        collection_hands_out_all_astro(cfg, assets, outcomes.drop_last());
        asset_messages_hand_out_the_astro(cfg, assets[n], o.balance, o.pair, o.amount_out);
        lemma_transferred_concat(
            collected(cfg, assets, outcomes.drop_last()),
            asset_messages(cfg, assets[n], o.balance, o.pair, o.amount_out),
        );
    }
}

/// One asset that the maker holds, with the pair it is swapped on and the ASTRO that the swap
/// returns (both unused for ASTRO itself).
pub struct Held {
    pub asset: AssetView,
    pub pair: Seq<char>,
    pub amount_out: u128,
}

/// The assets held among the first `outcomes.len()` assets, in order.
pub open spec fn held(assets: Seq<AssetInfoView>, outcomes: Seq<Outcome>) -> Seq<Held>
    decreases outcomes.len(),
{
    if outcomes.len() == 0 {
        Seq::empty()
    } else {
        let n = outcomes.len() - 1;
        let o = outcomes[n];
        let rest = held(assets, outcomes.drop_last());
        if o.balance == 0 {
            rest
        } else {
            rest.push(Held { asset: AssetView { info: assets[n], amount: o.balance }, pair: o.pair, amount_out: o.amount_out })
        }
    }
}

/// The balances learned, asset after asset.
pub open spec fn outcome_balances(outcomes: Seq<Outcome>) -> Seq<u128> {
    outcomes.map_values(|o: Outcome| o.balance)
}

/// The amounts of the assets held.
pub open spec fn held_assets(hs: Seq<Held>) -> Seq<AssetView> {
    hs.map_values(|h: Held| h.asset)
}

/// The messages for one held asset: the split of the ASTRO held, or the swap of the whole
/// amount and the split of what it returns.
pub open spec fn held_messages_of(cfg: Config, h: Held) -> Seq<MakerMsgView> {
    if h.asset.info == cfg.astro() {
        transfer_msgs(cfg, h.asset.amount)
    } else {
        seq![swap_msg(h.asset.info, h.asset.amount, h.pair)] + transfer_msgs(cfg, h.amount_out)
    }
}

/// The messages for the held assets, asset after asset.
pub open spec fn held_messages(cfg: Config, hs: Seq<Held>) -> Seq<MakerMsgView>
    decreases hs.len(),
{
    if hs.len() == 0 {
        Seq::empty()
    } else {
        held_messages(cfg, hs.drop_last()) + held_messages_of(cfg, hs.last())
    }
}

/// Two messages for each held ASTRO balance, three for each other held asset.
pub open spec fn held_count(cfg: Config, hs: Seq<Held>) -> int
    decreases hs.len(),
{
    if hs.len() == 0 {
        0
    } else {
        held_count(cfg, hs.drop_last()) + if hs.last().asset.info == cfg.astro() {
            2int
        } else {
            3int
        }
    }
}

/// Law: with the same assets and the same balances, the balances query and a collection deal
/// with the same assets: the collection's messages are, for each asset in the balances
/// answer and in its order, the split of that amount of ASTRO, or the swap of that amount and
/// the split of what it returns; two messages for ASTRO, three for any other asset.
pub proof fn balances_and_collection_agree(cfg: Config, assets: Seq<AssetInfoView>, outcomes: Seq<Outcome>)
    requires
        outcomes.len() <= assets.len(),
    ensures
        held_assets(held(assets, outcomes)) == nonzero_balances(assets.take(outcomes.len() as int), outcome_balances(outcomes)),
        collected(cfg, assets, outcomes) == held_messages(cfg, held(assets, outcomes)),
        collected(cfg, assets, outcomes).len() == held_count(cfg, held(assets, outcomes)),
    decreases outcomes.len(),
{
    if outcomes.len() == 0 {
        assert(held_assets(held(assets, outcomes)) =~= Seq::<AssetView>::empty());
    } else {
        let n = outcomes.len() - 1;
        let o = outcomes[n];
        let os = outcomes.drop_last();
        balances_and_collection_agree(cfg, assets, os);
        let rest = held(assets, os);
        let prefix = assets.take(outcomes.len() as int);
        assert(prefix.drop_last() =~= assets.take(n));
        assert(outcome_balances(outcomes).take(n) =~= outcome_balances(os));
        assert(prefix[n] == assets[n]);
        assert(outcome_balances(outcomes)[n] == o.balance);
        if o.balance == 0 {
            assert(collected(cfg, assets, outcomes) =~= collected(cfg, assets, os));
        } else {
            let h = Held { asset: AssetView { info: assets[n], amount: o.balance }, pair: o.pair, amount_out: o.amount_out };
            assert(held(assets, outcomes) == rest.push(h));
            assert(held_assets(rest.push(h)) =~= held_assets(rest).push(h.asset));
            assert(rest.push(h).drop_last() =~= rest);
            assert(held_messages_of(cfg, h) == asset_messages(cfg, assets[n], o.balance, o.pair, o.amount_out));
            assert(transfer_msgs(cfg, h.asset.amount).len() == 2);
            assert(transfer_msgs(cfg, h.amount_out).len() == 2);
        }
    }
}

/// Law: the swap of an asset offers the whole amount on the given pair: a native asset is
/// sent as funds under its denomination, a token is sent from its contract, and nothing
/// else is done.
pub proof fn swap_offers_the_whole_amount(asset: AssetInfoView, amount: u128, pair: Seq<char>)
    ensures
        (swap_msg(asset, amount, pair) is SwapNative) == (asset is NativeToken),
        (swap_msg(asset, amount, pair) is SwapToken) == (asset is Token),
        swap_msg(asset, amount, pair) matches MakerMsgView::SwapNative { pair: p, denom, amount: a }
            ==> p == pair && denom == asset.key() && a == amount,
        swap_msg(asset, amount, pair) matches MakerMsgView::SwapToken { token, pair: p, amount: a }
            ==> p == pair && token == asset.key() && a == amount,
{
}

/// Law: a collection swaps every asset held other than ASTRO in full, on the pair learned for
/// it, and hands out every ASTRO balance held.
pub proof fn collection_deals_with_every_held_asset(cfg: Config, assets: Seq<AssetInfoView>, outcomes: Seq<Outcome>)
    requires
        outcomes.len() <= assets.len(),
        cfg.valid(),
    ensures
        forall|i: int|
            0 <= i < outcomes.len() && (#[trigger] outcomes[i]).balance != 0 && assets[i] != cfg.astro()
                ==> exists|j: int|
                0 <= j < collected(cfg, assets, outcomes).len() && collected(cfg, assets, outcomes)[j] == swap_msg(
                    assets[i],
                    outcomes[i].balance,
                    outcomes[i].pair,
                ),
        forall|i: int|
            0 <= i < outcomes.len() && (#[trigger] outcomes[i]).balance != 0 && assets[i] == cfg.astro()
                ==> exists|j: int|
                0 <= j && j + 1 < collected(cfg, assets, outcomes).len()
                    && #[trigger] collected(cfg, assets, outcomes)[j] == transfer_msgs(cfg, outcomes[i].balance)[0]
                    && collected(cfg, assets, outcomes)[j + 1] == transfer_msgs(cfg, outcomes[i].balance)[1],
    decreases outcomes.len(),
{
    if outcomes.len() > 0 {
        let n = outcomes.len() - 1;
        let os = outcomes.drop_last();
        collection_deals_with_every_held_asset(cfg, assets, os);
        let before = collected(cfg, assets, os);
        let all = collected(cfg, assets, outcomes);
        let o = outcomes[n];
        let tail = asset_messages(cfg, assets[n], o.balance, o.pair, o.amount_out);
        assert(all == before + tail);
        assert forall|i: int|
            0 <= i < outcomes.len() && (#[trigger] outcomes[i]).balance != 0 && assets[i] != cfg.astro()
                implies exists|j: int| 0 <= j < all.len() && all[j] == swap_msg(assets[i], outcomes[i].balance, outcomes[i].pair) by {
            if i < n {
                assert(os[i] == outcomes[i]);
                let j = choose|j: int| 0 <= j < before.len() && before[j] == swap_msg(assets[i], os[i].balance, os[i].pair);
                assert(all[j] == before[j]);
            } else {
                assert(all[before.len() as int] == tail[0]);
            }
        }
        assert forall|i: int|
            0 <= i < outcomes.len() && (#[trigger] outcomes[i]).balance != 0 && assets[i] == cfg.astro()
                implies exists|j: int| 0 <= j && j + 1 < all.len() && #[trigger] all[j] == transfer_msgs(cfg, outcomes[i].balance)[0]
                    && all[j + 1] == transfer_msgs(cfg, outcomes[i].balance)[1] by {
            if i < n {
                assert(os[i] == outcomes[i]);
                let j = choose|j: int| 0 <= j && j + 1 < before.len() && #[trigger] before[j] == transfer_msgs(cfg, os[i].balance)[0]
                    && before[j + 1] == transfer_msgs(cfg, os[i].balance)[1];
                assert(all[j] == before[j]);
                assert(all[j + 1] == before[j + 1]);
            } else {
                assert(all[before.len() as int] == tail[0]);
                assert(all[before.len() as int + 1] == tail[1]);
            }
        }
    }
}

/// Law: learning that nothing of the current asset is held moves the collector exactly one
/// asset on, with no message added: the collection goes on to the remaining assets.
pub proof fn zero_balance_moves_one_asset_on(before: Collector, after: Collector, r: Result<CollectStep, ContractError>)
    requires
        after_balance(before, after, 0, r),
    ensures
        after.position() == before.position() + 1,
        after.assets() == before.assets(),
        after.position() < after.assets().len() ==> after.messages() == before.messages(),
        after.position() < after.assets().len() ==> (r matches Ok(CollectStep::Query(CollectQuery::Balance { asset }))
            && asset@ == after.assets()[before.position() + 1]),
        after.position() == after.assets().len() ==> (r matches Ok(CollectStep::Done(msgs)) && msgs_view(msgs@)
            == before.messages()),
{
}

} // verus!
