//! Paying out the gold held in escrow: the gold the other side of a trade
//! put in goes to the caller (a claim), or the caller's own gold goes back to
//! them (a return). The bot counts its pouches of 50 and 35 in the inventory
//! and the stash, works out which to use, puts them into the trade window,
//! and once the trade goes through records the gold paid.

use vstd::prelude::*;
use crate::detect::{gold_reading, pouch_count, read_gold, count_pouches};
use crate::flows::common::{
    Action, Event, LineStyle, Note, Outcome, Probe, Store, event_saw, output_text, printed, ran, saw,
};
use crate::flows::handover::{Handover, find_source, source_found};
use crate::pointer::in_i32;
use crate::pouches::{
    calculate_pouches, click_pouches, lemma_pouch_result_bounds, pouch_arith_ok, pouch_plan,
    pouch_result, pouch_targets,
};
use crate::text::{trim, trim_str};
use crate::traders::{ReadyState, Trader, TradersContainer};

verus! {

/// The most pouches that one trade window holds.
pub const MAX_WINDOW_POUCHES: i32 = 25;

/// The least gold left in escrow that a payout is made for.
pub const MIN_PAYOUT: i32 = 30;

/// Where a payout stands.
#[derive(PartialEq, Eq, Structural, Clone, Copy, Debug)]
pub enum GoldPhase {
    Start,
    CheckReady,
    Launching,
    Waiting,
    Requesting,
    CountInv50,
    PauseInv,
    CountInv35,
    FindStash,
    ClickStash,
    PauseStash,
    CountStash50,
    PauseStash50,
    CountStash35,
    FindInventory,
    ClickInventory,
    ClickInv50,
    ClickInv35,
    OpenStash,
    ClickOpenStash,
    ClickStash50,
    ClickStash35,
    AwaitReady,
    FindCheckbox,
    ClickCheckbox,
    Settle,
    Inspect,
    InspectLines,
    ReadGold,
    AwaitFinal,
    FindFinal,
    ClickFinal,
    Record,
    Succeeding,
    Leaving(Note),
    Closing(Note),
    Done(Outcome),
}

/// What a payout has gathered so far.
pub struct GoldModel {
    pub phase: GoldPhase,
    /// What the pouch detectors printed: 50s and 35s in the inventory, then
    /// in the stash.
    pub inv50: Seq<char>,
    pub inv35: Seq<char>,
    pub stash50: Seq<char>,
    pub stash35: Seq<char>,
    /// The pouches to use: 50s from the inventory, 50s from the stash, 35s
    /// from the inventory, 35s from the stash.
    pub plan: (i32, i32, i32, i32),
    /// The pouches in the trade window.
    pub clicked: i32,
    /// The gold the bot's side of the trade window shows.
    pub gold: i32,
}

/// `((a + b) * 50) + ((c + d) * 35)` in `i32` arithmetic: the gold in the
/// pouches counted; `None` where a step overflows (the bot gives up).
pub open spec fn pouch_total(a: int, b: int, c: int, d: int) -> Option<i32> {
    let s50 = a + b;
    let s35 = c + d;
    if in_i32(s50) && in_i32(s50 * 50) && in_i32(s35) && in_i32(s35 * 35) && in_i32(
        s50 * 50 + s35 * 35,
    ) {
        Some((s50 * 50 + s35 * 35) as i32)
    } else {
        None
    }
}

/// The gold recorded as received: what the window showed for a claim, its
/// negation for a return.
pub open spec fn received(mode: Handover, gold: i32) -> int {
    match mode {
        Handover::Claim => gold as int,
        Handover::Return => -gold,
    }
}

/// After the inventory's pouches: open the stash if pouches are to come
/// from it.
pub open spec fn stash_phase(plan: (i32, i32, i32, i32)) -> GoldPhase {
    if plan.1 > 0 || plan.3 > 0 {
        GoldPhase::OpenStash
    } else {
        GoldPhase::AwaitReady
    }
}

/// The state once every pouch is counted: give up where the bot holds too
/// little gold, else work out which pouches to use.
pub open spec fn after_count(tr: Option<Trader>, m: GoldModel) -> GoldModel {
    let owe = tr->0.gold as int;
    let a = pouch_count(m.inv50) as int;
    let b = pouch_count(m.stash50) as int;
    let c = pouch_count(m.inv35) as int;
    let d = pouch_count(m.stash35) as int;
    match pouch_total(a, b, c, d) {
        None => GoldModel { phase: GoldPhase::Closing(Note::Panicked), ..m },
        Some(total) => if total < owe - 30 {
            GoldModel { phase: GoldPhase::Leaving(Note::NotEnoughGold), ..m }
        } else if !pouch_arith_ok(owe, a, b, c, d) {
            GoldModel { phase: GoldPhase::Closing(Note::Panicked), ..m }
        } else {
            let p = pouch_plan(owe, a, b, c, d);
            let plan = (p.0 as i32, p.1 as i32, p.2 as i32, p.3 as i32);
            GoldModel {
                phase: if plan.0 > 0 || plan.2 > 0 {
                    GoldPhase::ClickInv50
                } else {
                    stash_phase(plan)
                },
                plan,
                ..m
            }
        },
    }
}

/// The state after the bot went through a pouch list: on to `next`, or give
/// up where it gave up in the list.
pub open spec fn after_pouches(m: GoldModel, coords: Seq<char>, count: i32, next: GoldPhase) -> GoldModel {
    let r = pouch_result(trim(coords), count, m.clicked, MAX_WINDOW_POUCHES);
    GoldModel {
        phase: if r.1 {
            next
        } else {
            GoldPhase::Closing(Note::Panicked)
        },
        clicked: r.0 as i32,
        ..m
    }
}

/// The next state of a payout in `mode` of the escrow of `tr`.
pub open spec fn gold_next(tr: Option<Trader>, mode: Handover, m: GoldModel, e: Event) -> GoldModel {
    let p = m.phase;
    let to = |q: GoldPhase| GoldModel { phase: q, ..m };
    if e is Panicked && !(p is Done) {
        if p is Closing {
            to(GoldPhase::Done(Outcome::Failed(Note::Panicked)))
        } else {
            to(GoldPhase::Closing(Note::Panicked))
        }
    } else {
        match p {
            GoldPhase::Start => to(GoldPhase::CheckReady),
            GoldPhase::CheckReady => match e {
                Event::Ready(ReadyState::True) => match tr {
                    None => to(GoldPhase::Closing(Note::Panicked)),
                    Some(t) => if t.gold < MIN_PAYOUT {
                        to(GoldPhase::Closing(Note::NotEnoughGoldLeft))
                    } else {
                        to(GoldPhase::Requesting)
                    },
                },
                Event::Ready(ReadyState::False) => to(GoldPhase::Launching),
                Event::Ready(ReadyState::Starting) => to(GoldPhase::Waiting),
                _ => to(GoldPhase::CheckReady),
            },
            GoldPhase::Launching => to(GoldPhase::CheckReady),
            GoldPhase::Waiting => to(GoldPhase::CheckReady),
            GoldPhase::Requesting => match e {
                Event::Requested(Some(true)) => to(GoldPhase::CountInv50),
                Event::Requested(Some(false)) => to(GoldPhase::Leaving(Note::PlayerDeclinedTrade)),
                _ => to(GoldPhase::Closing(Note::Panicked)),
            },
            GoldPhase::CountInv50 => match printed(e) {
                Some(out) => GoldModel { phase: GoldPhase::PauseInv, inv50: out, ..m },
                None => to(GoldPhase::Closing(Note::Panicked)),
            },
            GoldPhase::PauseInv => to(GoldPhase::CountInv35),
            GoldPhase::CountInv35 => match printed(e) {
                Some(out) => GoldModel { phase: GoldPhase::FindStash, inv35: out, ..m },
                None => to(GoldPhase::Closing(Note::Panicked)),
            },
            GoldPhase::FindStash => if ran(e) {
                to(GoldPhase::ClickStash)
            } else {
                to(GoldPhase::Closing(Note::Panicked))
            },
            GoldPhase::ClickStash => to(GoldPhase::PauseStash),
            GoldPhase::PauseStash => to(GoldPhase::CountStash50),
            GoldPhase::CountStash50 => match printed(e) {
                Some(out) => GoldModel { phase: GoldPhase::PauseStash50, stash50: out, ..m },
                None => to(GoldPhase::Closing(Note::Panicked)),
            },
            GoldPhase::PauseStash50 => to(GoldPhase::CountStash35),
            GoldPhase::CountStash35 => match printed(e) {
                Some(out) => GoldModel { phase: GoldPhase::FindInventory, stash35: out, ..m },
                None => to(GoldPhase::Closing(Note::Panicked)),
            },
            GoldPhase::FindInventory => if ran(e) {
                to(GoldPhase::ClickInventory)
            } else {
                to(GoldPhase::Closing(Note::Panicked))
            },
            GoldPhase::ClickInventory => after_count(tr, m),
            GoldPhase::ClickInv50 => after_pouches(m, m.inv50, m.plan.0, GoldPhase::ClickInv35),
            GoldPhase::ClickInv35 => after_pouches(m, m.inv35, m.plan.2, stash_phase(m.plan)),
            GoldPhase::OpenStash => if ran(e) {
                to(GoldPhase::ClickOpenStash)
            } else {
                to(GoldPhase::Closing(Note::Panicked))
            },
            GoldPhase::ClickOpenStash => to(GoldPhase::ClickStash50),
            GoldPhase::ClickStash50 => after_pouches(m, m.stash50, m.plan.1, GoldPhase::ClickStash35),
            GoldPhase::ClickStash35 => after_pouches(m, m.stash35, m.plan.3, GoldPhase::AwaitReady),
            GoldPhase::AwaitReady => if saw(e) {
                to(GoldPhase::FindCheckbox)
            } else {
                to(GoldPhase::Leaving(Note::TradeNotAccepted))
            },
            GoldPhase::FindCheckbox => if ran(e) {
                to(GoldPhase::ClickCheckbox)
            } else {
                to(GoldPhase::Closing(Note::Panicked))
            },
            GoldPhase::ClickCheckbox => to(GoldPhase::Settle),
            GoldPhase::Settle => to(GoldPhase::Inspect),
            GoldPhase::Inspect => if ran(e) {
                to(GoldPhase::InspectLines)
            } else {
                to(GoldPhase::Closing(Note::Panicked))
            },
            GoldPhase::InspectLines => to(GoldPhase::ReadGold),
            GoldPhase::ReadGold => {
                let gold = match printed(e) {
                    Some(out) => gold_reading(out),
                    None => Some(0i32),
                };
                match gold {
                    None => to(GoldPhase::Closing(Note::Panicked)),
                    Some(g) => GoldModel { phase: GoldPhase::AwaitFinal, gold: g, ..m },
                }
            },
            GoldPhase::AwaitFinal => if saw(e) {
                to(GoldPhase::FindFinal)
            } else {
                to(GoldPhase::Leaving(Note::TradeNotAccepted))
            },
            GoldPhase::FindFinal => if ran(e) {
                to(GoldPhase::ClickFinal)
            } else {
                to(GoldPhase::Closing(Note::Panicked))
            },
            GoldPhase::ClickFinal => if e == Event::Clicked(true) {
                if in_i32(received(mode, m.gold)) {
                    to(GoldPhase::Record)
                } else {
                    to(GoldPhase::Closing(Note::Panicked))
                }
            } else {
                to(GoldPhase::Leaving(Note::ClickFailed))
            },
            GoldPhase::Record => if e == Event::Stored(true) {
                to(GoldPhase::Succeeding)
            } else {
                to(GoldPhase::Leaving(Note::GoldNotRecorded))
            },
            GoldPhase::Succeeding => to(GoldPhase::Done(Outcome::Succeeded(Note::TradeSuccessful))),
            GoldPhase::Leaving(n) => to(GoldPhase::Closing(n)),
            GoldPhase::Closing(n) => to(GoldPhase::Done(Outcome::Failed(n))),
            GoldPhase::Done(o) => to(GoldPhase::Done(o)),
        }
    }
}

/// What holds of every state that a payout reaches: once past the check of
/// the escrow, the trader exists and holds at least the least payout; the
/// trade window never holds more pouches than it has room for; and the gold
/// to record fits an `i32`.
pub open spec fn gold_inv(tr: Option<Trader>, mode: Handover, m: GoldModel) -> bool {
    &&& 0 <= m.clicked <= MAX_WINDOW_POUCHES
    &&& m.phase is Record ==> in_i32(received(mode, m.gold))
    &&& match m.phase {
        GoldPhase::Start | GoldPhase::CheckReady | GoldPhase::Launching | GoldPhase::Waiting
        | GoldPhase::Leaving(_) | GoldPhase::Closing(_) | GoldPhase::Done(_) => true,
        _ => tr is Some && tr->0.gold >= MIN_PAYOUT,
    }
}

/// Every step of a payout keeps its invariant.
pub proof fn lemma_gold_inv(tr: Option<Trader>, mode: Handover, m: GoldModel, e: Event)
    requires
        gold_inv(tr, mode, m),
    ensures
        gold_inv(tr, mode, gold_next(tr, mode, m, e)),
        gold_next(tr, mode, m, e).phase is InspectLines ==> ran(e),
{
    if !(e is Panicked) {
        match m.phase {
            GoldPhase::ClickInv50 => lemma_pouch_result_bounds(
                trim(m.inv50),
                m.plan.0,
                m.clicked,
                MAX_WINDOW_POUCHES,
            ),
            GoldPhase::ClickInv35 => lemma_pouch_result_bounds(
                trim(m.inv35),
                m.plan.2,
                m.clicked,
                MAX_WINDOW_POUCHES,
            ),
            GoldPhase::ClickStash50 => lemma_pouch_result_bounds(
                trim(m.stash50),
                m.plan.1,
                m.clicked,
                MAX_WINDOW_POUCHES,
            ),
            GoldPhase::ClickStash35 => lemma_pouch_result_bounds(
                trim(m.stash35),
                m.plan.3,
                m.clicked,
                MAX_WINDOW_POUCHES,
            ),
            _ => {},
        }
    }
}

/// The action that starts a phase of a payout in `mode` of the escrow of
/// `tr`, asked for by the player `in_game_id`, given the event that led
/// there.
pub open spec fn gold_entry(
    tr: Option<Trader>,
    in_game_id: Seq<char>,
    mode: Handover,
    m: GoldModel,
    e: Event,
    a: Action,
) -> bool {
    let t = tr->0;
    let click = Action::ClickDetected { smooth: true, offset_y: 0 };
    match m.phase {
        GoldPhase::Start => a == Action::Pause(0),
        GoldPhase::CheckReady => a == Action::CheckReady,
        GoldPhase::Launching => a == Action::LaunchGame,
        GoldPhase::Waiting => a == Action::Pause(2000),
        GoldPhase::Requesting => a matches Action::SendTradeRequest(s) && s@ == in_game_id,
        GoldPhase::CountInv50 | GoldPhase::CountStash50 => a == Action::Detect(Probe::Pouches50),
        GoldPhase::CountInv35 | GoldPhase::CountStash35 => a == Action::Detect(Probe::Pouches35),
        GoldPhase::PauseInv | GoldPhase::PauseStash | GoldPhase::PauseStash50 => a == Action::Pause(500),
        GoldPhase::FindStash | GoldPhase::OpenStash => a == Action::Detect(Probe::Stash),
        GoldPhase::FindInventory => a == Action::Detect(Probe::Inventory),
        GoldPhase::ClickStash | GoldPhase::ClickInventory | GoldPhase::ClickOpenStash
        | GoldPhase::ClickCheckbox | GoldPhase::ClickFinal => a == click,
        GoldPhase::ClickInv50 => a matches Action::ClickPouches(ts) && pouch_targets(
            trim(m.inv50),
            m.plan.0,
            m.clicked,
            MAX_WINDOW_POUCHES,
            ts@,
        ),
        GoldPhase::ClickInv35 => a matches Action::ClickPouches(ts) && pouch_targets(
            trim(m.inv35),
            m.plan.2,
            m.clicked,
            MAX_WINDOW_POUCHES,
            ts@,
        ),
        GoldPhase::ClickStash50 => a matches Action::ClickPouches(ts) && pouch_targets(
            trim(m.stash50),
            m.plan.1,
            m.clicked,
            MAX_WINDOW_POUCHES,
            ts@,
        ),
        GoldPhase::ClickStash35 => a matches Action::ClickPouches(ts) && pouch_targets(
            trim(m.stash35),
            m.plan.3,
            m.clicked,
            MAX_WINDOW_POUCHES,
            ts@,
        ),
        GoldPhase::AwaitReady | GoldPhase::AwaitFinal => a == Action::Detect(Probe::TraderReady),
        GoldPhase::FindCheckbox | GoldPhase::FindFinal => a == Action::Detect(Probe::TradeCheckbox),
        GoldPhase::Settle => a == Action::Pause(300),
        GoldPhase::Inspect => a == Action::Detect(Probe::InspectItems),
        GoldPhase::InspectLines => a matches Action::ActOnLines { output, style } && printed(e)
            == Some(output@) && style == (LineStyle::Inspect { minimize: false }),
        GoldPhase::ReadGold => a == Action::Detect(Probe::BotGold),
        GoldPhase::Record => a matches Action::Ask(Store::AddGoldReceived { channel, discord, amount })
            && channel@ == t.discord_channel_id@ && discord@ == t.discord_id@ && amount == received(
            mode,
            m.gold,
        ),
        GoldPhase::Succeeding | GoldPhase::Leaving(_) | GoldPhase::Closing(_) => a is ReturnToLobby,
        GoldPhase::Done(o) => a == Action::Finish(o),
    }
}

/// A payout of gold held in escrow.
pub struct GoldTransfer {
    pub phase: GoldPhase,
    pub mode: Handover,
    /// The player who asked, and who gets the trade request.
    pub in_game_id: String,
    /// The trader whose escrow is paid out.
    pub trader: Option<Trader>,
    pub inv50: String,
    pub inv35: String,
    pub stash50: String,
    pub stash35: String,
    pub plan: (i32, i32, i32, i32),
    pub clicked: i32,
    pub gold: i32,
    /// While pouches are being put into the window: how many it holds after
    /// them, and whether the bot got through the list.
    pub pending: (i32, bool),
}

/// A payout in `mode`, asked for by the player `in_game_id`.
fn start_gold(traders: &TradersContainer, in_game_id: &str, mode: Handover) -> (r: GoldTransfer)
    ensures
        r.phase == GoldPhase::Start,
        r.mode == mode,
        r.in_game_id@ == in_game_id@,
        source_found(traders@, in_game_id@, mode, r.trader),
        r.clicked == 0,
        gold_inv(r.trader, mode, r.model()),
        r.pending_ok(),
{
    GoldTransfer {
        phase: GoldPhase::Start,
        mode,
        in_game_id: in_game_id.to_owned(),
        trader: find_source(traders, in_game_id, mode),
        inv50: String::new(),
        inv35: String::new(),
        stash50: String::new(),
        stash35: String::new(),
        plan: (0, 0, 0, 0),
        clicked: 0,
        gold: 0,
        pending: (0, true),
    }
}

/// A claim by the player `in_game_id` of the gold that the other side of
/// their trade put in escrow.
pub fn claim_gold(traders: &TradersContainer, in_game_id: &str) -> (r: GoldTransfer)
    ensures
        r.phase == GoldPhase::Start,
        r.mode == Handover::Claim,
        r.in_game_id@ == in_game_id@,
        source_found(traders@, in_game_id@, Handover::Claim, r.trader),
        r.clicked == 0,
        gold_inv(r.trader, Handover::Claim, r.model()),
        r.pending_ok(),
{
    start_gold(traders, in_game_id, Handover::Claim)
}

/// A return to the player `in_game_id` of their own gold in escrow.
pub fn return_gold(traders: &TradersContainer, in_game_id: &str) -> (r: GoldTransfer)
    ensures
        r.phase == GoldPhase::Start,
        r.mode == Handover::Return,
        r.in_game_id@ == in_game_id@,
        source_found(traders@, in_game_id@, Handover::Return, r.trader),
        r.clicked == 0,
        gold_inv(r.trader, Handover::Return, r.model()),
        r.pending_ok(),
{
    start_gold(traders, in_game_id, Handover::Return)
}

/// The text of an event's output, or an empty text.
fn output_or_empty(e: &Event) -> (s: String)
    ensures
        printed(*e) matches Some(t) ==> s@ == t,
{
    match output_text(e) {
        Some(t) => t.clone(),
        None => String::new(),
    }
}

/// The gold to record for a window showing `gold`, where it fits an `i32`.
fn gold_received(mode: Handover, gold: i32) -> (r: Option<i32>)
    ensures
        match r {
            Some(v) => v == received(mode, gold),
            None => !in_i32(received(mode, gold)),
        },
{
    match mode {
        Handover::Claim => Some(gold),
        Handover::Return => if gold == i32::MIN {
            None
        } else {
            Some(-gold)
        },
    }
}

/// The gold in the pouches counted, where the `i32` arithmetic holds.
fn total_of(a: i32, b: i32, c: i32, d: i32) -> (r: Option<i32>)
    ensures
        r == pouch_total(a as int, b as int, c as int, d as int),
{
    let s50: i64 = (a as i64) + (b as i64);
    let s35: i64 = (c as i64) + (d as i64);
    let lo: i64 = i32::MIN as i64;
    let hi: i64 = i32::MAX as i64;
    if s50 < lo || s50 > hi || s35 < lo || s35 > hi {
        return None;
    }
    let m50: i64 = s50 * 50;
    let m35: i64 = s35 * 35;
    if m50 < lo || m50 > hi || m35 < lo || m35 > hi {
        return None;
    }
    let t: i64 = m50 + m35;
    if t < lo || t > hi {
        return None;
    }
    Some(t as i32)
}

impl GoldTransfer {
    /// What the payout has gathered, as values.
    pub open spec fn model(&self) -> GoldModel {
        GoldModel {
            phase: self.phase,
            inv50: self.inv50@,
            inv35: self.inv35@,
            stash50: self.stash50@,
            stash35: self.stash35@,
            plan: self.plan,
            clicked: self.clicked,
            gold: self.gold,
        }
    }

    /// Whether `pending` holds what going through the current pouch list
    /// gives.
    pub open spec fn pending_ok(&self) -> bool {
        let r = match self.phase {
            GoldPhase::ClickInv50 => Some(
                pouch_result(trim(self.inv50@), self.plan.0, self.clicked, MAX_WINDOW_POUCHES),
            ),
            GoldPhase::ClickInv35 => Some(
                pouch_result(trim(self.inv35@), self.plan.2, self.clicked, MAX_WINDOW_POUCHES),
            ),
            GoldPhase::ClickStash50 => Some(
                pouch_result(trim(self.stash50@), self.plan.1, self.clicked, MAX_WINDOW_POUCHES),
            ),
            GoldPhase::ClickStash35 => Some(
                pouch_result(trim(self.stash35@), self.plan.3, self.clicked, MAX_WINDOW_POUCHES),
            ),
            _ => None,
        };
        r matches Some(v) ==> v == (self.pending.0 as int, self.pending.1)
    }

    /// The state once every pouch is counted.
    fn take_count(&mut self)
        requires
            old(self).trader is Some,
        ensures
            final(self).trader == old(self).trader,
            final(self).mode == old(self).mode,
            final(self).in_game_id == old(self).in_game_id,
            final(self).model() == after_count(old(self).trader, old(self).model()),
    {
        let owe = match &self.trader {
            Some(t) => t.gold,
            None => 0,
        };
        let a = count_pouches(self.inv50.as_str());
        let b = count_pouches(self.stash50.as_str());
        let c = count_pouches(self.inv35.as_str());
        let d = count_pouches(self.stash35.as_str());
        match total_of(a, b, c, d) {
            None => {
                self.phase = GoldPhase::Closing(Note::Panicked);
            },
            Some(total) => {
                if (total as i64) < (owe as i64) - 30 {
                    self.phase = GoldPhase::Leaving(Note::NotEnoughGold);
                } else {
                    match calculate_pouches(owe, a, b, c, d) {
                        None => {
                            self.phase = GoldPhase::Closing(Note::Panicked);
                        },
                        Some(plan) => {
                            self.plan = plan;
                            self.phase = if plan.0 > 0 || plan.2 > 0 {
                                GoldPhase::ClickInv50
                            } else if plan.1 > 0 || plan.3 > 0 {
                                GoldPhase::OpenStash
                            } else {
                                GoldPhase::AwaitReady
                            };
                        },
                    }
                }
            },
        }
    }

    /// Takes the result of going through a pouch list.
    fn take_pouches(&mut self, next: GoldPhase)
        ensures
            final(self).trader == old(self).trader,
            final(self).mode == old(self).mode,
            final(self).in_game_id == old(self).in_game_id,
            final(self).model() == (GoldModel {
                phase: if old(self).pending.1 {
                    next
                } else {
                    GoldPhase::Closing(Note::Panicked)
                },
                clicked: old(self).pending.0,
                ..old(self).model()
            }),
    {
        self.clicked = self.pending.0;
        self.phase = if self.pending.1 {
            next
        } else {
            GoldPhase::Closing(Note::Panicked)
        };
    }

    /// Takes the host's observation and moves to the next state.
    fn advance(&mut self, e: &Event)
        requires
            old(self).pending_ok(),
            gold_inv(old(self).trader, old(self).mode, old(self).model()),
        ensures
            final(self).trader == old(self).trader,
            final(self).mode == old(self).mode,
            final(self).in_game_id == old(self).in_game_id,
            final(self).model() == gold_next(old(self).trader, old(self).mode, old(self).model(), *e),
    {
        let panicked = GoldPhase::Closing(Note::Panicked);
        if matches!(e, Event::Panicked) && !matches!(self.phase, GoldPhase::Done(_)) {
            if matches!(self.phase, GoldPhase::Closing(_)) {
                self.phase = GoldPhase::Done(Outcome::Failed(Note::Panicked));
            } else {
                self.phase = panicked;
            }
            return;
        }
        let ran = output_text(e).is_some();
        let saw = event_saw(e);
        match self.phase {
            GoldPhase::ClickInventory => {
                self.take_count();
                return;
            },
            GoldPhase::ClickInv50 => {
                self.take_pouches(GoldPhase::ClickInv35);
                return;
            },
            GoldPhase::ClickInv35 => {
                let next = if self.plan.1 > 0 || self.plan.3 > 0 {
                    GoldPhase::OpenStash
                } else {
                    GoldPhase::AwaitReady
                };
                self.take_pouches(next);
                return;
            },
            GoldPhase::ClickStash50 => {
                self.take_pouches(GoldPhase::ClickStash35);
                return;
            },
            GoldPhase::ClickStash35 => {
                self.take_pouches(GoldPhase::AwaitReady);
                return;
            },
            GoldPhase::CountInv50 | GoldPhase::CountInv35 | GoldPhase::CountStash50
            | GoldPhase::CountStash35 => {
                match output_text(e) {
                    None => {
                        self.phase = panicked;
                    },
                    Some(out) => {
                        let out = out.clone();
                        match self.phase {
                            GoldPhase::CountInv50 => {
                                self.inv50 = out;
                                self.phase = GoldPhase::PauseInv;
                            },
                            GoldPhase::CountInv35 => {
                                self.inv35 = out;
                                self.phase = GoldPhase::FindStash;
                            },
                            GoldPhase::CountStash50 => {
                                self.stash50 = out;
                                self.phase = GoldPhase::PauseStash50;
                            },
                            _ => {
                                self.stash35 = out;
                                self.phase = GoldPhase::FindInventory;
                            },
                        }
                    },
                }
                return;
            },
            GoldPhase::ReadGold => {
                let gold = match output_text(e) {
                    Some(out) => read_gold(out.as_str()),
                    None => Some(0),
                };
                match gold {
                    None => {
                        self.phase = panicked;
                    },
                    Some(g) => {
                        self.gold = g;
                        self.phase = GoldPhase::AwaitFinal;
                    },
                }
                return;
            },
            _ => {},
        }
        let next = match self.phase {
            GoldPhase::Start => GoldPhase::CheckReady,
            GoldPhase::CheckReady => match e {
                Event::Ready(ReadyState::True) => match &self.trader {
                    None => panicked,
                    Some(t) => if t.gold < MIN_PAYOUT {
                        GoldPhase::Closing(Note::NotEnoughGoldLeft)
                    } else {
                        GoldPhase::Requesting
                    },
                },
                Event::Ready(ReadyState::False) => GoldPhase::Launching,
                Event::Ready(ReadyState::Starting) => GoldPhase::Waiting,
                _ => GoldPhase::CheckReady,
            },
            GoldPhase::Launching => GoldPhase::CheckReady,
            GoldPhase::Waiting => GoldPhase::CheckReady,
            GoldPhase::Requesting => match e {
                Event::Requested(Some(true)) => GoldPhase::CountInv50,
                Event::Requested(Some(false)) => GoldPhase::Leaving(Note::PlayerDeclinedTrade),
                _ => panicked,
            },
            GoldPhase::PauseInv => GoldPhase::CountInv35,
            GoldPhase::FindStash => if ran {
                GoldPhase::ClickStash
            } else {
                panicked
            },
            GoldPhase::ClickStash => GoldPhase::PauseStash,
            GoldPhase::PauseStash => GoldPhase::CountStash50,
            GoldPhase::PauseStash50 => GoldPhase::CountStash35,
            GoldPhase::FindInventory => if ran {
                GoldPhase::ClickInventory
            } else {
                panicked
            },
            GoldPhase::OpenStash => if ran {
                GoldPhase::ClickOpenStash
            } else {
                panicked
            },
            GoldPhase::ClickOpenStash => GoldPhase::ClickStash50,
            GoldPhase::AwaitReady => if saw {
                GoldPhase::FindCheckbox
            } else {
                GoldPhase::Leaving(Note::TradeNotAccepted)
            },
            GoldPhase::FindCheckbox => if ran {
                GoldPhase::ClickCheckbox
            } else {
                panicked
            },
            GoldPhase::ClickCheckbox => GoldPhase::Settle,
            GoldPhase::Settle => GoldPhase::Inspect,
            GoldPhase::Inspect => if ran {
                GoldPhase::InspectLines
            } else {
                panicked
            },
            GoldPhase::InspectLines => GoldPhase::ReadGold,
            GoldPhase::AwaitFinal => if saw {
                GoldPhase::FindFinal
            } else {
                GoldPhase::Leaving(Note::TradeNotAccepted)
            },
            GoldPhase::FindFinal => if ran {
                GoldPhase::ClickFinal
            } else {
                panicked
            },
            GoldPhase::ClickFinal => if matches!(e, Event::Clicked(true)) {
                if gold_received(self.mode, self.gold).is_some() {
                    GoldPhase::Record
                } else {
                    panicked
                }
            } else {
                GoldPhase::Leaving(Note::ClickFailed)
            },
            GoldPhase::Record => if matches!(e, Event::Stored(true)) {
                GoldPhase::Succeeding
            } else {
                GoldPhase::Leaving(Note::GoldNotRecorded)
            },
            GoldPhase::Succeeding => GoldPhase::Done(Outcome::Succeeded(Note::TradeSuccessful)),
            GoldPhase::Leaving(n) => GoldPhase::Closing(n),
            GoldPhase::Closing(n) => GoldPhase::Done(Outcome::Failed(n)),
            GoldPhase::Done(o) => GoldPhase::Done(o),
            _ => panicked,
        };
        self.phase = next;
    }

    /// Goes through the pouch list `coords` (as the detector printed it),
    /// taking `count` pouches from it: keeps the result and returns the
    /// points to click.
    fn pouch_action(&mut self, coords: &str, count: i32) -> (a: Action)
        ensures
            final(self).model() == old(self).model(),
            final(self).trader == old(self).trader,
            final(self).mode == old(self).mode,
            final(self).in_game_id == old(self).in_game_id,
            (final(self).pending.0 as int, final(self).pending.1) == pouch_result(
                trim(coords@),
                count,
                old(self).clicked,
                MAX_WINDOW_POUCHES,
            ),
            a matches Action::ClickPouches(ts) && pouch_targets(
                trim(coords@),
                count,
                old(self).clicked,
                MAX_WINDOW_POUCHES,
                ts@,
            ),
    {
        let r = click_pouches(trim_str(coords), count, self.clicked, MAX_WINDOW_POUCHES);
        self.pending = (r.clicked, r.complete);
        Action::ClickPouches(r.targets)
    }

    /// The action that starts the current phase.
    fn entry(&mut self, e: &Event) -> (a: Action)
        requires
            gold_inv(old(self).trader, old(self).mode, old(self).model()),
            old(self).phase is InspectLines ==> ran(*e),
        ensures
            final(self).model() == old(self).model(),
            final(self).trader == old(self).trader,
            final(self).mode == old(self).mode,
            final(self).in_game_id == old(self).in_game_id,
            final(self).pending_ok(),
            gold_entry(final(self).trader, final(self).in_game_id@, final(self).mode, final(self).model(), *e, a),
    {
        let click = Action::ClickDetected { smooth: true, offset_y: 0 };
        match self.phase {
            GoldPhase::ClickInv50 => {
                let coords = self.inv50.clone();
                self.pouch_action(coords.as_str(), self.plan.0)
            },
            GoldPhase::ClickInv35 => {
                let coords = self.inv35.clone();
                self.pouch_action(coords.as_str(), self.plan.2)
            },
            GoldPhase::ClickStash50 => {
                let coords = self.stash50.clone();
                self.pouch_action(coords.as_str(), self.plan.1)
            },
            GoldPhase::ClickStash35 => {
                let coords = self.stash35.clone();
                self.pouch_action(coords.as_str(), self.plan.3)
            },
            GoldPhase::Start => Action::Pause(0),
            GoldPhase::CheckReady => Action::CheckReady,
            GoldPhase::Launching => Action::LaunchGame,
            GoldPhase::Waiting => Action::Pause(2000),
            GoldPhase::Requesting => Action::SendTradeRequest(self.in_game_id.clone()),
            GoldPhase::CountInv50 | GoldPhase::CountStash50 => Action::Detect(Probe::Pouches50),
            GoldPhase::CountInv35 | GoldPhase::CountStash35 => Action::Detect(Probe::Pouches35),
            GoldPhase::PauseInv | GoldPhase::PauseStash | GoldPhase::PauseStash50 => Action::Pause(500),
            GoldPhase::FindStash | GoldPhase::OpenStash => Action::Detect(Probe::Stash),
            GoldPhase::FindInventory => Action::Detect(Probe::Inventory),
            GoldPhase::ClickStash | GoldPhase::ClickInventory | GoldPhase::ClickOpenStash
            | GoldPhase::ClickCheckbox | GoldPhase::ClickFinal => click,
            GoldPhase::AwaitReady | GoldPhase::AwaitFinal => Action::Detect(Probe::TraderReady),
            GoldPhase::FindCheckbox | GoldPhase::FindFinal => Action::Detect(Probe::TradeCheckbox),
            GoldPhase::Settle => Action::Pause(300),
            GoldPhase::Inspect => Action::Detect(Probe::InspectItems),
            GoldPhase::InspectLines => Action::ActOnLines {
                output: output_or_empty(e),
                style: LineStyle::Inspect { minimize: false },
            },
            GoldPhase::ReadGold => Action::Detect(Probe::BotGold),
            GoldPhase::Record => match (&self.trader, gold_received(self.mode, self.gold)) {
                (Some(t), Some(amount)) => Action::Ask(
                    Store::AddGoldReceived {
                        channel: t.discord_channel_id.clone(),
                        discord: t.discord_id.clone(),
                        amount,
                    },
                ),
                _ => Action::ReturnToLobby,
            },
            GoldPhase::Succeeding | GoldPhase::Leaving(_) | GoldPhase::Closing(_) => Action::ReturnToLobby,
            GoldPhase::Done(o) => Action::Finish(o),
        }
    }

    /// Moves on by one step: takes what the host observed of the last action
    /// and returns the next action.
    pub fn step(&mut self, e: &Event) -> (a: Action)
        requires
            gold_inv(old(self).trader, old(self).mode, old(self).model()),
            old(self).pending_ok(),
        ensures
            final(self).trader == old(self).trader,
            final(self).mode == old(self).mode,
            final(self).in_game_id == old(self).in_game_id,
            final(self).model() == gold_next(old(self).trader, old(self).mode, old(self).model(), *e),
            gold_inv(final(self).trader, final(self).mode, final(self).model()),
            final(self).pending_ok(),
            gold_entry(
                final(self).trader,
                final(self).in_game_id@,
                final(self).mode,
                final(self).model(),
                *e,
                a,
            ),
    {
        let ghost m = self.model();
        proof {
            lemma_gold_inv(self.trader, self.mode, m, *e);
        }
        self.advance(e);
        self.entry(e)
    }
}

/// The trade window never holds more pouches than it has room for.
pub proof fn lemma_window_room(tr: Option<Trader>, mode: Handover, m: GoldModel, e: Event)
    requires
        gold_inv(tr, mode, m),
    ensures
        0 <= gold_next(tr, mode, m, e).clicked <= MAX_WINDOW_POUCHES,
{
    lemma_gold_inv(tr, mode, m, e);
}

/// A payout trades only for a trader whose escrow holds at least the least
/// payout: below it, the bot refuses before sending a trade request.
pub proof fn lemma_payout_needs_minimum(tr: Option<Trader>, mode: Handover, m: GoldModel, e: Event)
    requires
        m.phase is CheckReady,
        e == Event::Ready(ReadyState::True),
        tr matches Some(t) && t.gold < MIN_PAYOUT,
    ensures
        gold_next(tr, mode, m, e).phase == GoldPhase::Closing(Note::NotEnoughGoldLeft),
{
}

/// A payout ends only right after going back to the lobby.
pub proof fn lemma_gold_ends_from_lobby(tr: Option<Trader>, mode: Handover, m: GoldModel, e: Event)
    ensures
        gold_next(tr, mode, m, e).phase is Done && !(m.phase is Done) ==> m.phase is Closing
            || m.phase is Succeeding,
{
}

/// Every pouch of the plan is offered for clicking: a payout waits for the
/// trader only after the stash's pouches, or where the plan takes none from
/// the stash; and once the inventory's pouches are in, a plan with pouches
/// in the stash opens the stash (unless the payout gives up).
pub proof fn lemma_stash_pouches_offered(tr: Option<Trader>, mode: Handover, m: GoldModel, e: Event)
    ensures
        gold_next(tr, mode, m, e).phase is AwaitReady && !(m.phase is AwaitReady) ==> m.phase
            is ClickStash35 || (gold_next(tr, mode, m, e).plan.1 <= 0 && gold_next(
            tr,
            mode,
            m,
            e,
        ).plan.3 <= 0),
        m.phase is ClickInv35 && (m.plan.1 > 0 || m.plan.3 > 0) ==> gold_next(tr, mode, m, e).phase
            is OpenStash || gold_next(tr, mode, m, e).phase is Closing,
        m.phase is ClickInventory && gold_next(tr, mode, m, e).plan.0 <= 0 && gold_next(
            tr,
            mode,
            m,
            e,
        ).plan.2 <= 0 && (gold_next(tr, mode, m, e).plan.1 > 0 || gold_next(tr, mode, m, e).plan.3
            > 0) && !(e is Panicked) ==> gold_next(tr, mode, m, e).phase is OpenStash
            || gold_next(tr, mode, m, e).phase is Closing || gold_next(tr, mode, m, e).phase
            is Leaving,
{
}

/// A claim records the gold that the trade window showed as received, and a
/// return records it as given back: its negation.
pub proof fn lemma_recorded_gold(tr: Option<Trader>, in_game_id: Seq<char>, mode: Handover, m: GoldModel, e: Event, a: Action)
    requires
        m.phase is Record,
        gold_entry(tr, in_game_id, mode, m, e, a),
    ensures
        a matches Action::Ask(Store::AddGoldReceived { amount, .. }) && amount == match mode {
            Handover::Claim => m.gold as int,
            Handover::Return => 0 - m.gold,
        },
{
}

/// At the readiness check a payout launches the game where it is not
/// running, waits where it is starting, and goes on where it is ready.
pub proof fn lemma_gold_readiness(tr: Option<Trader>, in_game_id: Seq<char>, mode: Handover, m: GoldModel, e: Event, a: Action)
    requires
        m.phase is CheckReady,
    ensures
        e == Event::Ready(ReadyState::False) ==> gold_next(tr, mode, m, e).phase is Launching && (
        gold_entry(tr, in_game_id, mode, gold_next(tr, mode, m, e), e, a) <==> a == Action::LaunchGame),
        e == Event::Ready(ReadyState::Starting) ==> gold_next(tr, mode, m, e).phase is Waiting && (
        gold_entry(tr, in_game_id, mode, gold_next(tr, mode, m, e), e, a) <==> a == Action::Pause(2000)),
        e == Event::Ready(ReadyState::True) && tr is Some && tr->0.gold >= MIN_PAYOUT ==> gold_next(
            tr,
            mode,
            m,
            e,
        ).phase is Requesting,
{
}

} // verus!
