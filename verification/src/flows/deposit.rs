//! Taking a trader's deposit: once the fee is paid, trade with the trader,
//! find which of their announced items are in the trade window, record the
//! gold and the items as held in escrow, and accept the trade.

use vstd::prelude::*;
use crate::detect::{Finding, findings, read_findings};
use crate::flows::common::{
    Action, Event, ImageSlot, ItemStatus, LineStyle, Note, Outcome, Probe, Store, count_hits,
    event_saw, hit_lines, output_text, printed, ran, saw,
};
use crate::detect::gold_reading;
use crate::traders::{ReadyState, Trader, TradersContainer, copy_of, is_first, named, none_is};

verus! {

/// Where a deposit stands. `item` indexes the trader's item images, `line`
/// the lines of the trade-window detector's output for that item, and `info`
/// the trader's info images; `pair` indexes the pairs found.
#[derive(PartialEq, Eq, Structural, Clone, Copy, Debug)]
pub enum DepositPhase {
    Start,
    CheckReady,
    Launching,
    Waiting,
    AskPaid,
    Requesting,
    AwaitReady,
    FindCheckbox,
    ClickCheckbox,
    Settle,
    Inspect,
    InspectLines,
    AwayBefore,
    ClickBefore,
    FetchItem { item: usize },
    FindItem { item: usize },
    LineAway { item: usize, line: usize },
    LineClick { item: usize, line: usize },
    MoveToItem { item: usize, line: usize },
    FetchInfo { item: usize, line: usize, info: usize },
    MatchInfo { item: usize, line: usize, info: usize },
    MatchLines { item: usize, line: usize, info: usize },
    AwayAfter,
    ClickAfter,
    AwaitAccept,
    ReadGold,
    AddGold,
    SetStatus { pair: usize },
    FindConfirm,
    ConfirmLines,
    Succeeding,
    Leaving(Note),
    Closing(Note),
    Done(Outcome),
}

/// What a deposit has gathered so far.
pub struct DepositModel {
    pub phase: DepositPhase,
    /// The findings of the trade-window detector for the current item.
    pub findings: Seq<Finding>,
    /// The (info image, item image) index pairs found in the trade window.
    pub pairs: Seq<(usize, usize)>,
    /// The gold the trader put in.
    pub gold: i32,
    /// The result so far of recording the deposit.
    pub status: Outcome,
}

/// How many item images the trader has (none where there is no trader).
pub open spec fn item_count(tr: Option<Trader>) -> int {
    match tr {
        Some(t) => t.item_images@.len() as int,
        None => 0,
    }
}

/// How many info images the trader has (none where there is no trader).
pub open spec fn info_count(tr: Option<Trader>) -> int {
    match tr {
        Some(t) => t.info_images@.len() as int,
        None => 0,
    }
}

/// The phase for item `i`: fetch it, or move on once every item is done.
pub open spec fn item_phase(tr: Option<Trader>, i: int) -> DepositPhase {
    if 0 <= i < item_count(tr) {
        DepositPhase::FetchItem { item: i as usize }
    } else {
        DepositPhase::AwayAfter
    }
}

/// The phase for line `j` of the findings of item `i`: lines that hold
/// neither a miss nor a region are passed over.
pub open spec fn line_phase(tr: Option<Trader>, fs: Seq<Finding>, i: int, j: int) -> DepositPhase
    decreases fs.len() - j,
{
    if j < 0 || j >= fs.len() {
        item_phase(tr, i + 1)
    } else {
        match fs[j] {
            Finding::Missing => DepositPhase::LineAway { item: i as usize, line: j as usize },
            Finding::Found(_) => DepositPhase::MoveToItem { item: i as usize, line: j as usize },
            Finding::Ignored => line_phase(tr, fs, i, j + 1),
            Finding::Malformed => DepositPhase::Closing(Note::Panicked),
        }
    }
}

/// The phase for info image `k` while at line `j` of item `i`.
pub open spec fn info_phase(tr: Option<Trader>, fs: Seq<Finding>, i: int, j: int, k: int) -> DepositPhase {
    if 0 <= k < info_count(tr) {
        DepositPhase::FetchInfo { item: i as usize, line: j as usize, info: k as usize }
    } else {
        line_phase(tr, fs, i, j + 1)
    }
}

/// Whether a result tells of a record that failed (the deposit starts with
/// `Something went wrong`, which tells only that nothing was recorded yet).
pub open spec fn record_failed(status: Outcome) -> bool {
    status matches Outcome::Failed(n) && n != Note::SomethingWrong
}

/// The result after an item record: a failure of an earlier record stands;
/// else the item record's own result.
pub open spec fn after_record(status: Outcome, stored: bool) -> Outcome {
    if record_failed(status) {
        status
    } else if stored {
        Outcome::Succeeded(Note::Success)
    } else {
        Outcome::Failed(Note::TradeError)
    }
}

/// After the records: accept the trade only if no record failed and
/// something was recorded.
pub open spec fn decide(status: Outcome) -> DepositPhase {
    match status {
        Outcome::Failed(n) => DepositPhase::Leaving(n),
        _ => DepositPhase::FindConfirm,
    }
}

/// The phase for pair `n` of the pairs found.
pub open spec fn pair_phase(pairs: Seq<(usize, usize)>, status: Outcome, n: int) -> DepositPhase {
    if 0 <= n < pairs.len() {
        DepositPhase::SetStatus { pair: n as usize }
    } else {
        decide(status)
    }
}

/// The next state of a deposit of the trader `tr`.
pub open spec fn deposit_next(tr: Option<Trader>, m: DepositModel, e: Event) -> DepositModel {
    let p = m.phase;
    let to = |q: DepositPhase| DepositModel { phase: q, ..m };
    if e is Panicked && !(p is Done) {
        if p is Closing {
            to(DepositPhase::Done(Outcome::Failed(Note::Panicked)))
        } else {
            to(DepositPhase::Closing(Note::Panicked))
        }
    } else {
        match p {
            DepositPhase::Start => to(DepositPhase::CheckReady),
            DepositPhase::CheckReady => match e {
                Event::Ready(ReadyState::True) => if tr is Some {
                    to(DepositPhase::AskPaid)
                } else {
                    to(DepositPhase::Closing(Note::Panicked))
                },
                Event::Ready(ReadyState::False) => to(DepositPhase::Launching),
                Event::Ready(ReadyState::Starting) => to(DepositPhase::Waiting),
                _ => to(DepositPhase::CheckReady),
            },
            DepositPhase::Launching => to(DepositPhase::CheckReady),
            DepositPhase::Waiting => to(DepositPhase::CheckReady),
            DepositPhase::AskPaid => match e {
                Event::Paid(Some(true)) => to(DepositPhase::Requesting),
                Event::Paid(Some(false)) => to(DepositPhase::Closing(Note::FeeNotPaid)),
                _ => to(DepositPhase::Closing(Note::Panicked)),
            },
            DepositPhase::Requesting => match e {
                Event::Requested(Some(true)) => to(DepositPhase::AwaitReady),
                Event::Requested(Some(false)) => to(DepositPhase::Leaving(Note::PlayerDeclinedTrade)),
                _ => to(DepositPhase::Closing(Note::Panicked)),
            },
            DepositPhase::AwaitReady => if saw(e) {
                to(DepositPhase::FindCheckbox)
            } else {
                to(DepositPhase::Leaving(Note::TradeNotAccepted))
            },
            DepositPhase::FindCheckbox => if ran(e) {
                to(DepositPhase::ClickCheckbox)
            } else {
                to(DepositPhase::Closing(Note::Panicked))
            },
            DepositPhase::ClickCheckbox => to(DepositPhase::Settle),
            DepositPhase::Settle => to(DepositPhase::Inspect),
            DepositPhase::Inspect => if ran(e) {
                to(DepositPhase::InspectLines)
            } else {
                to(DepositPhase::Closing(Note::Panicked))
            },
            DepositPhase::InspectLines => to(DepositPhase::AwayBefore),
            DepositPhase::AwayBefore => to(DepositPhase::ClickBefore),
            DepositPhase::ClickBefore => to(item_phase(tr, 0)),
            DepositPhase::FetchItem { item } => if e == Event::Fetched(true) {
                to(DepositPhase::FindItem { item })
            } else {
                to(DepositPhase::Leaving(Note::DownloadFailed))
            },
            DepositPhase::FindItem { item } => match printed(e) {
                Some(out) => {
                    let fs = findings(out);
                    DepositModel { phase: line_phase(tr, fs, item as int, 0), findings: fs, ..m }
                },
                None => to(DepositPhase::Closing(Note::Panicked)),
            },
            DepositPhase::LineAway { item, line } => to(DepositPhase::LineClick { item, line }),
            DepositPhase::LineClick { item, line } => to(
                line_phase(tr, m.findings, item as int, line + 1),
            ),
            DepositPhase::MoveToItem { item, line } => to(
                info_phase(tr, m.findings, item as int, line as int, 0),
            ),
            DepositPhase::FetchInfo { item, line, info } => if e == Event::Fetched(true) {
                to(DepositPhase::MatchInfo { item, line, info })
            } else {
                to(DepositPhase::Leaving(Note::DownloadFailed))
            },
            DepositPhase::MatchInfo { item, line, info } => match printed(e) {
                Some(out) => DepositModel {
                    phase: DepositPhase::MatchLines { item, line, info },
                    pairs: m.pairs + Seq::new(hit_lines(out), |x: int| (info, item)),
                    ..m
                },
                None => to(info_phase(tr, m.findings, item as int, line as int, info + 1)),
            },
            DepositPhase::MatchLines { item, line, info } => to(
                info_phase(tr, m.findings, item as int, line as int, info + 1),
            ),
            DepositPhase::AwayAfter => to(DepositPhase::ClickAfter),
            DepositPhase::ClickAfter => to(DepositPhase::AwaitAccept),
            DepositPhase::AwaitAccept => if saw(e) {
                to(DepositPhase::ReadGold)
            } else {
                to(DepositPhase::Leaving(Note::TradeNotAccepted))
            },
            DepositPhase::ReadGold => {
                let gold = match printed(e) {
                    Some(out) => gold_reading(out),
                    None => Some(0i32),
                };
                match gold {
                    None => to(DepositPhase::Closing(Note::Panicked)),
                    Some(g) => DepositModel {
                        phase: if g > 0 {
                            DepositPhase::AddGold
                        } else {
                            pair_phase(m.pairs, Outcome::Failed(Note::SomethingWrong), 0)
                        },
                        gold: g,
                        status: Outcome::Failed(Note::SomethingWrong),
                        ..m
                    },
                }
            },
            DepositPhase::AddGold => {
                let st = if e == Event::Stored(true) {
                    Outcome::Succeeded(Note::GoldAdded)
                } else {
                    Outcome::Failed(Note::GoldNotAdded)
                };
                DepositModel { phase: pair_phase(m.pairs, st, 0), status: st, ..m }
            },
            DepositPhase::SetStatus { pair } => {
                let st = after_record(m.status, e == Event::Stored(true));
                DepositModel { phase: pair_phase(m.pairs, st, pair + 1), status: st, ..m }
            },
            DepositPhase::FindConfirm => if ran(e) {
                to(DepositPhase::ConfirmLines)
            } else {
                to(DepositPhase::Closing(Note::Panicked))
            },
            DepositPhase::ConfirmLines => to(DepositPhase::Succeeding),
            DepositPhase::Succeeding => to(DepositPhase::Done(Outcome::Succeeded(Note::TradeSuccessful))),
            DepositPhase::Leaving(n) => to(DepositPhase::Closing(n)),
            DepositPhase::Closing(n) => to(DepositPhase::Done(Outcome::Failed(n))),
            DepositPhase::Done(o) => to(DepositPhase::Done(o)),
        }
    }
}


/// What holds of every state that a deposit reaches: the trader exists once
/// the bot asked about the fee, and every index points into its list.
pub open spec fn deposit_inv(tr: Option<Trader>, m: DepositModel) -> bool {
    let ni = item_count(tr);
    let nf = info_count(tr);
    &&& ni <= usize::MAX
    &&& nf <= usize::MAX
    &&& m.findings.len() <= usize::MAX
    &&& m.pairs.len() <= usize::MAX
    &&& forall|n: int| 0 <= n < m.pairs.len() ==> (#[trigger] m.pairs[n]).0 < nf && m.pairs[n].1 < ni
    &&& match m.phase {
        DepositPhase::Start | DepositPhase::CheckReady | DepositPhase::Launching
        | DepositPhase::Waiting | DepositPhase::Leaving(_) | DepositPhase::Closing(_)
        | DepositPhase::Done(_) => true,
        DepositPhase::FetchItem { item } => tr is Some && item < ni,
        DepositPhase::FindItem { item } => tr is Some && item < ni,
        DepositPhase::LineAway { item, line } => tr is Some && item < ni && line < m.findings.len(),
        DepositPhase::LineClick { item, line } => tr is Some && item < ni && line < m.findings.len(),
        DepositPhase::MoveToItem { item, line } => tr is Some && item < ni && line < m.findings.len()
            && m.findings[line as int] is Found,
        DepositPhase::FetchInfo { item, line, info } => tr is Some && item < ni && line
            < m.findings.len() && info < nf,
        DepositPhase::MatchInfo { item, line, info } => tr is Some && item < ni && line
            < m.findings.len() && info < nf,
        DepositPhase::MatchLines { item, line, info } => tr is Some && item < ni && line
            < m.findings.len() && info < nf,
        DepositPhase::SetStatus { pair } => tr is Some && pair < m.pairs.len(),
        _ => tr is Some,
    }
}

proof fn lemma_line_phase(tr: Option<Trader>, fs: Seq<Finding>, i: int, j: int)
    requires
        tr is Some,
        fs.len() <= usize::MAX,
        item_count(tr) <= usize::MAX,
        0 <= i < item_count(tr),
    ensures
        match line_phase(tr, fs, i, j) {
            DepositPhase::LineAway { item, line } => item == i && 0 <= line < fs.len(),
            DepositPhase::MoveToItem { item, line } => item == i && 0 <= line < fs.len()
                && fs[line as int] is Found,
            DepositPhase::FetchItem { item } => item < item_count(tr),
            DepositPhase::AwayAfter => true,
            DepositPhase::Closing(_) => true,
            _ => false,
        },
    decreases fs.len() - j,
{
    if j < 0 || j >= fs.len() {
    } else if fs[j] is Ignored {
        lemma_line_phase(tr, fs, i, j + 1);
    }
}

/// Every step of a deposit keeps its invariant.
pub proof fn lemma_deposit_inv(tr: Option<Trader>, m: DepositModel, e: Event)
    requires
        deposit_inv(tr, m),
        deposit_next(tr, m, e).findings.len() <= usize::MAX,
        deposit_next(tr, m, e).pairs.len() <= usize::MAX,
    ensures
        deposit_inv(tr, deposit_next(tr, m, e)),
{
    let m2 = deposit_next(tr, m, e);
    match m.phase {
        DepositPhase::FindItem { item } => {
            if let Some(out) = printed(e) {
                lemma_line_phase(tr, findings(out), item as int, 0);
            }
        },
        DepositPhase::LineClick { item, line } => {
            lemma_line_phase(tr, m.findings, item as int, line + 1);
        },
        DepositPhase::MoveToItem { item, line } => {
            lemma_line_phase(tr, m.findings, item as int, line + 1);
        },
        DepositPhase::MatchInfo { item, line, info } => {
            lemma_line_phase(tr, m.findings, item as int, line + 1);
            if let Some(out) = printed(e) {
                let added = Seq::new(hit_lines(out), |x: int| (info, item));
                assert forall|n: int| 0 <= n < m2.pairs.len() implies (#[trigger] m2.pairs[n]).0
                    < info_count(tr) && m2.pairs[n].1 < item_count(tr) by {
                    if n < m.pairs.len() {
                        assert(m2.pairs[n] == m.pairs[n]);
                    } else {
                        assert(m2.pairs[n] == added[n - m.pairs.len()]);
                    }
                }
            }
        },
        DepositPhase::MatchLines { item, line, info } => {
            lemma_line_phase(tr, m.findings, item as int, line + 1);
        },
        _ => {},
    }
}

/// What the phase after a step follows from: a phase that acts on a
/// detector's output follows a detector that ran, the end follows the way
/// back to the lobby, and the acceptance follows a successful record.
proof fn lemma_next_phase(tr: Option<Trader>, m: DepositModel, e: Event)
    requires
        deposit_inv(tr, m),
        deposit_next(tr, m, e).findings.len() <= usize::MAX,
    ensures
        ({
            let p = deposit_next(tr, m, e).phase;
            &&& p is InspectLines || p is MatchLines || p is ConfirmLines ==> ran(e)
            &&& p is Done && !(m.phase is Done) ==> m.phase is Closing || m.phase is Succeeding
            &&& p is FindConfirm ==> deposit_next(tr, m, e).status is Succeeded
        }),
{
    match m.phase {
        DepositPhase::FindItem { item } => {
            if let Some(out) = printed(e) {
                lemma_line_phase(tr, findings(out), item as int, 0);
            }
        },
        DepositPhase::LineClick { item, line } => {
            lemma_line_phase(tr, m.findings, item as int, line + 1);
        },
        DepositPhase::MoveToItem { item, line } => {
            lemma_line_phase(tr, m.findings, item as int, line + 1);
        },
        DepositPhase::MatchInfo { item, line, info } => {
            lemma_line_phase(tr, m.findings, item as int, line + 1);
        },
        DepositPhase::MatchLines { item, line, info } => {
            lemma_line_phase(tr, m.findings, item as int, line + 1);
        },
        _ => {},
    }
}

/// The action that starts a phase of a deposit of the trader `tr`, given
/// the event that led there.
pub open spec fn deposit_entry(tr: Option<Trader>, m: DepositModel, e: Event, a: Action) -> bool {
    let t = tr->0;
    match m.phase {
        DepositPhase::Start => a == Action::Pause(0),
        DepositPhase::CheckReady => a == Action::CheckReady,
        DepositPhase::Launching => a == Action::LaunchGame,
        DepositPhase::Waiting => a == Action::Pause(2000),
        DepositPhase::AskPaid => a matches Action::Ask(Store::HasPaidFee { channel, discord })
            && channel@ == t.discord_channel_id@ && discord@ == t.discord_id@,
        DepositPhase::Requesting => a matches Action::SendTradeRequest(s) && s@ == t.in_game_id@,
        DepositPhase::AwaitReady => a == Action::Detect(Probe::TraderReady),
        DepositPhase::FindCheckbox => a == Action::Detect(Probe::TradeCheckbox),
        DepositPhase::ClickCheckbox => a == Action::ClickDetected { smooth: true, offset_y: 0 },
        DepositPhase::Settle => a == Action::Pause(300),
        DepositPhase::Inspect => a == Action::Detect(Probe::InspectItems),
        DepositPhase::InspectLines => a matches Action::ActOnLines { output, style } && printed(e)
            == Some(output@) && style == (LineStyle::Inspect { minimize: false }),
        DepositPhase::AwayBefore => a == Action::MoveAway,
        DepositPhase::ClickBefore => a == Action::LeftClick,
        DepositPhase::FetchItem { item } => a matches Action::Download { url, slot } && url
            == t.item_images@[item as int] && slot == ImageSlot::Item,
        DepositPhase::FindItem { .. } => a == Action::Detect(Probe::ItemInWindow),
        DepositPhase::LineAway { .. } => a == Action::MoveAway,
        DepositPhase::LineClick { .. } => a == Action::LeftClick,
        DepositPhase::MoveToItem { line, .. } => m.findings[line as int] matches Finding::Found(r)
            && a == Action::MoveToRegion(r),
        DepositPhase::FetchInfo { info, .. } => a matches Action::Download { url, slot } && url
            == t.info_images@[info as int] && slot == ImageSlot::Info,
        DepositPhase::MatchInfo { .. } => a == Action::Detect(Probe::InfoMatch),
        DepositPhase::MatchLines { .. } => a matches Action::ActOnLines { output, style }
            && printed(e) == Some(output@) && style == LineStyle::Misses,
        DepositPhase::AwayAfter => a == Action::MoveAway,
        DepositPhase::ClickAfter => a == Action::LeftClick,
        DepositPhase::AwaitAccept => a == Action::Detect(Probe::TraderReady),
        DepositPhase::ReadGold => a == Action::Detect(Probe::TraderGold),
        DepositPhase::AddGold => a matches Action::Ask(
            Store::AddGoldTraded { channel, discord, amount },
        ) && channel@ == t.discord_channel_id@ && discord@ == t.discord_id@ && amount == m.gold,
        DepositPhase::SetStatus { pair } => a matches Action::Ask(
            Store::SetItemStatus { item_url, info_url, status },
        ) && item_url == t.item_images@[m.pairs[pair as int].1 as int] && info_url
            == t.info_images@[m.pairs[pair as int].0 as int] && status == ItemStatus::InEscrow,
        DepositPhase::FindConfirm => a == Action::Detect(Probe::TradeCheckbox),
        DepositPhase::ConfirmLines => a matches Action::ActOnLines { output, style } && printed(e)
            == Some(output@) && style == LineStyle::Confirm,
        DepositPhase::Succeeding => a is ReturnToLobby,
        DepositPhase::Leaving(_) => a is ReturnToLobby,
        DepositPhase::Closing(_) => a is ReturnToLobby,
        DepositPhase::Done(o) => a == Action::Finish(o),
    }
}

/// The text of an event's output, or an empty text.
fn output_or_empty(e: &Event) -> (s: String)
    ensures
        printed(*e) matches Some(t) ==> s@ == t,
{
    match output_text(e) {
        Some(t) => t.clone(),
        None => String::new(),
    }
}

/// Appends `count` copies of `pair`.
fn push_pairs(pairs: &mut Vec<(usize, usize)>, count: usize, pair: (usize, usize))
    ensures
        final(pairs)@ == old(pairs)@ + Seq::new(count as nat, |x: int| pair),
{
    let ghost before = pairs@;
    let mut h: usize = 0;
    while h < count
        invariant
            h <= count,
            pairs@ == before + Seq::new(h as nat, |x: int| pair),
        decreases count - h,
    {
        pairs.push(pair);
        assert(pairs@ =~= before + Seq::new((h + 1) as nat, |x: int| pair));
        h = h + 1;
    }
}

/// A deposit of the first trader under the in-game name `in_game_id`
/// (the procedure gives up once the bot is ready where there is none).
pub fn deposit(traders: &TradersContainer, in_game_id: &str) -> (d: Deposit)
    ensures
        d.phase == DepositPhase::Start,
        d.findings@.len() == 0,
        d.pairs@.len() == 0,
        d.gold == 0,
        d.status == Outcome::Failed(Note::SomethingWrong),
        match d.trader {
            Some(t) => exists|i: int|
                is_first(traders@, i, named(in_game_id@)) && copy_of(t, #[trigger] traders@[i]),
            None => none_is(traders@, named(in_game_id@)),
        },
        deposit_inv(d.trader, d.model()),
{
    let trader = match traders.get_trader_by_in_game_id(in_game_id) {
        Some(t) => {
            let c = t.copy();
            let _ = c.item_images.len();
            let _ = c.info_images.len();
            Some(c)
        },
        None => None,
    };
    Deposit {
        phase: DepositPhase::Start,
        trader,
        findings: Vec::new(),
        pairs: Vec::new(),
        gold: 0,
        status: Outcome::Failed(Note::SomethingWrong),
    }
}

/// A deposit of the trader found under an in-game name.
pub struct Deposit {
    pub phase: DepositPhase,
    pub trader: Option<Trader>,
    pub findings: Vec<Finding>,
    pub pairs: Vec<(usize, usize)>,
    pub gold: i32,
    pub status: Outcome,
}

impl Deposit {
    /// What the deposit has gathered, as values.
    pub open spec fn model(&self) -> DepositModel {
        DepositModel {
            phase: self.phase,
            findings: self.findings@,
            pairs: self.pairs@,
            gold: self.gold,
            status: self.status,
        }
    }

    fn items_len(&self) -> (n: usize)
        ensures
            n == item_count(self.trader),
    {
        match &self.trader {
            Some(t) => t.item_images.len(),
            None => 0,
        }
    }

    fn infos_len(&self) -> (n: usize)
        ensures
            n == info_count(self.trader),
    {
        match &self.trader {
            Some(t) => t.info_images.len(),
            None => 0,
        }
    }

    /// The phase for the item after item `i`.
    fn after_item(&self, i: usize) -> (p: DepositPhase)
        ensures
            p == item_phase(self.trader, i + 1),
    {
        let n = self.items_len();
        if i < n && i + 1 < n {
            DepositPhase::FetchItem { item: i + 1 }
        } else {
            DepositPhase::AwayAfter
        }
    }

    /// The phase for line `j` of item `i`'s findings.
    fn line_phase_at(&self, i: usize, j: usize) -> (p: DepositPhase)
        ensures
            p == line_phase(self.trader, self.findings@, i as int, j as int),
    {
        let mut k = j;
        while k < self.findings.len() && matches!(self.findings[k], Finding::Ignored)
            invariant
                j <= k,
                line_phase(self.trader, self.findings@, i as int, j as int) == line_phase(
                    self.trader,
                    self.findings@,
                    i as int,
                    k as int,
                ),
            decreases self.findings@.len() - k,
        {
            k = k + 1;
        }
        if k >= self.findings.len() {
            return self.after_item(i);
        }
        match self.findings[k] {
            Finding::Missing => DepositPhase::LineAway { item: i, line: k },
            Finding::Found(_) => DepositPhase::MoveToItem { item: i, line: k },
            Finding::Ignored => DepositPhase::Closing(Note::Panicked),
            Finding::Malformed => DepositPhase::Closing(Note::Panicked),
        }
    }

    /// The phase for the line after line `j` of item `i`'s findings.
    fn after_line(&self, i: usize, j: usize) -> (p: DepositPhase)
        ensures
            p == line_phase(self.trader, self.findings@, i as int, j + 1),
    {
        if j < self.findings.len() {
            self.line_phase_at(i, j + 1)
        } else {
            self.after_item(i)
        }
    }

    /// The phase for info image `k` at line `j` of item `i`.
    fn info_phase_at(&self, i: usize, j: usize, k: usize) -> (p: DepositPhase)
        ensures
            p == info_phase(self.trader, self.findings@, i as int, j as int, k as int),
    {
        if k < self.infos_len() {
            DepositPhase::FetchInfo { item: i, line: j, info: k }
        } else {
            self.after_line(i, j)
        }
    }

    /// The phase for the info image after info image `k`.
    fn after_info(&self, i: usize, j: usize, k: usize) -> (p: DepositPhase)
        ensures
            p == info_phase(self.trader, self.findings@, i as int, j as int, k + 1),
    {
        if k < self.infos_len() {
            self.info_phase_at(i, j, k + 1)
        } else {
            self.after_line(i, j)
        }
    }

    /// The phase for pair `n`, given the result so far.
    fn pair_phase_at(&self, status: Outcome, n: usize) -> (p: DepositPhase)
        ensures
            p == pair_phase(self.pairs@, status, n as int),
    {
        if n < self.pairs.len() {
            DepositPhase::SetStatus { pair: n }
        } else {
            match status {
                Outcome::Failed(note) => DepositPhase::Leaving(note),
                _ => DepositPhase::FindConfirm,
            }
        }
    }

    /// The phase for the pair after pair `n`.
    fn after_pair(&self, status: Outcome, n: usize) -> (p: DepositPhase)
        ensures
            p == pair_phase(self.pairs@, status, n + 1),
    {
        if n < self.pairs.len() {
            self.pair_phase_at(status, n + 1)
        } else {
            self.pair_phase_at(status, n)
        }
    }

    /// Takes the host's observation and moves to the next state.
    fn advance(&mut self, e: &Event)
        ensures
            final(self).trader == old(self).trader,
            final(self).model() == deposit_next(old(self).trader, old(self).model(), *e),
    {
        let ghost m = self.model();
        let panicked = DepositPhase::Closing(Note::Panicked);
        if matches!(e, Event::Panicked) && !matches!(self.phase, DepositPhase::Done(_)) {
            if matches!(self.phase, DepositPhase::Closing(_)) {
                self.phase = DepositPhase::Done(Outcome::Failed(Note::Panicked));
            } else {
                self.phase = panicked;
            }
            return;
        }
        let ran = output_text(e).is_some();
        let saw = event_saw(e);
        let stored = matches!(e, Event::Stored(true));
        let fetched = matches!(e, Event::Fetched(true));
        let next = match self.phase {
            DepositPhase::Start => DepositPhase::CheckReady,
            DepositPhase::CheckReady => match e {
                Event::Ready(ReadyState::True) => if self.trader.is_some() {
                    DepositPhase::AskPaid
                } else {
                    panicked
                },
                Event::Ready(ReadyState::False) => DepositPhase::Launching,
                Event::Ready(ReadyState::Starting) => DepositPhase::Waiting,
                _ => DepositPhase::CheckReady,
            },
            DepositPhase::Launching => DepositPhase::CheckReady,
            DepositPhase::Waiting => DepositPhase::CheckReady,
            DepositPhase::AskPaid => match e {
                Event::Paid(Some(true)) => DepositPhase::Requesting,
                Event::Paid(Some(false)) => DepositPhase::Closing(Note::FeeNotPaid),
                _ => panicked,
            },
            DepositPhase::Requesting => match e {
                Event::Requested(Some(true)) => DepositPhase::AwaitReady,
                Event::Requested(Some(false)) => DepositPhase::Leaving(Note::PlayerDeclinedTrade),
                _ => panicked,
            },
            DepositPhase::AwaitReady => if saw {
                DepositPhase::FindCheckbox
            } else {
                DepositPhase::Leaving(Note::TradeNotAccepted)
            },
            DepositPhase::FindCheckbox => if ran {
                DepositPhase::ClickCheckbox
            } else {
                panicked
            },
            DepositPhase::ClickCheckbox => DepositPhase::Settle,
            DepositPhase::Settle => DepositPhase::Inspect,
            DepositPhase::Inspect => if ran {
                DepositPhase::InspectLines
            } else {
                panicked
            },
            DepositPhase::InspectLines => DepositPhase::AwayBefore,
            DepositPhase::AwayBefore => DepositPhase::ClickBefore,
            DepositPhase::ClickBefore => {
                if 0 < self.items_len() {
                    DepositPhase::FetchItem { item: 0 }
                } else {
                    DepositPhase::AwayAfter
                }
            },
            DepositPhase::FetchItem { item } => if fetched {
                DepositPhase::FindItem { item }
            } else {
                DepositPhase::Leaving(Note::DownloadFailed)
            },
            DepositPhase::FindItem { item } => match output_text(e) {
                Some(out) => {
                    self.findings = read_findings(out.as_str());
                    self.line_phase_at(item, 0)
                },
                None => panicked,
            },
            DepositPhase::LineAway { item, line } => DepositPhase::LineClick { item, line },
            DepositPhase::LineClick { item, line } => self.after_line(item, line),
            DepositPhase::MoveToItem { item, line } => self.info_phase_at(item, line, 0),
            DepositPhase::FetchInfo { item, line, info } => if fetched {
                DepositPhase::MatchInfo { item, line, info }
            } else {
                DepositPhase::Leaving(Note::DownloadFailed)
            },
            DepositPhase::MatchInfo { item, line, info } => match output_text(e) {
                Some(out) => {
                    let hits = count_hits(out.as_str());
                    push_pairs(&mut self.pairs, hits, (info, item));
                    DepositPhase::MatchLines { item, line, info }
                },
                None => self.after_info(item, line, info),
            },
            DepositPhase::MatchLines { item, line, info } => self.after_info(item, line, info),
            DepositPhase::AwayAfter => DepositPhase::ClickAfter,
            DepositPhase::ClickAfter => DepositPhase::AwaitAccept,
            DepositPhase::AwaitAccept => if saw {
                DepositPhase::ReadGold
            } else {
                DepositPhase::Leaving(Note::TradeNotAccepted)
            },
            DepositPhase::ReadGold => {
                let gold = match output_text(e) {
                    Some(out) => crate::detect::read_gold(out.as_str()),
                    None => Some(0),
                };
                match gold {
                    None => panicked,
                    Some(g) => {
                        self.gold = g;
                        self.status = Outcome::Failed(Note::SomethingWrong);
                        if g > 0 {
                            DepositPhase::AddGold
                        } else {
                            self.pair_phase_at(Outcome::Failed(Note::SomethingWrong), 0)
                        }
                    },
                }
            },
            DepositPhase::AddGold => {
                let st = if stored {
                    Outcome::Succeeded(Note::GoldAdded)
                } else {
                    Outcome::Failed(Note::GoldNotAdded)
                };
                self.status = st;
                self.pair_phase_at(st, 0)
            },
            DepositPhase::SetStatus { pair } => {
                let failed_before = match self.status {
                    Outcome::Failed(n) => n != Note::SomethingWrong,
                    _ => false,
                };
                let st = if failed_before {
                    self.status
                } else if stored {
                    Outcome::Succeeded(Note::Success)
                } else {
                    Outcome::Failed(Note::TradeError)
                };
                self.status = st;
                self.after_pair(st, pair)
            },
            DepositPhase::FindConfirm => if ran {
                DepositPhase::ConfirmLines
            } else {
                panicked
            },
            DepositPhase::ConfirmLines => DepositPhase::Succeeding,
            DepositPhase::Succeeding => DepositPhase::Done(Outcome::Succeeded(Note::TradeSuccessful)),
            DepositPhase::Leaving(n) => DepositPhase::Closing(n),
            DepositPhase::Closing(n) => DepositPhase::Done(Outcome::Failed(n)),
            DepositPhase::Done(o) => DepositPhase::Done(o),
        };
        self.phase = next;
    }
    /// The action that starts the current phase.
    fn entry(&self, e: &Event) -> (a: Action)
        requires
            deposit_inv(self.trader, self.model()),
            self.phase is InspectLines || self.phase is MatchLines || self.phase is ConfirmLines
                ==> ran(*e),
        ensures
            deposit_entry(self.trader, self.model(), *e, a),
    {
        match self.phase {
            DepositPhase::Start => Action::Pause(0),
            DepositPhase::CheckReady => Action::CheckReady,
            DepositPhase::Launching => Action::LaunchGame,
            DepositPhase::Waiting => Action::Pause(2000),
            DepositPhase::Done(o) => Action::Finish(o),
            DepositPhase::Succeeding | DepositPhase::Leaving(_) | DepositPhase::Closing(_) => {
                Action::ReturnToLobby
            },
            DepositPhase::AwaitReady | DepositPhase::AwaitAccept => Action::Detect(Probe::TraderReady),
            DepositPhase::FindCheckbox | DepositPhase::FindConfirm => Action::Detect(Probe::TradeCheckbox),
            DepositPhase::ClickCheckbox => Action::ClickDetected { smooth: true, offset_y: 0 },
            DepositPhase::Settle => Action::Pause(300),
            DepositPhase::Inspect => Action::Detect(Probe::InspectItems),
            DepositPhase::InspectLines => Action::ActOnLines {
                output: output_or_empty(e),
                style: LineStyle::Inspect { minimize: false },
            },
            DepositPhase::AwayBefore | DepositPhase::AwayAfter | DepositPhase::LineAway { .. } => {
                Action::MoveAway
            },
            DepositPhase::ClickBefore | DepositPhase::ClickAfter | DepositPhase::LineClick { .. } => {
                Action::LeftClick
            },
            DepositPhase::FindItem { .. } => Action::Detect(Probe::ItemInWindow),
            DepositPhase::MoveToItem { line, .. } => match self.findings[line] {
                Finding::Found(r) => Action::MoveToRegion(r),
                _ => Action::MoveAway,
            },
            DepositPhase::MatchInfo { .. } => Action::Detect(Probe::InfoMatch),
            DepositPhase::MatchLines { .. } => Action::ActOnLines {
                output: output_or_empty(e),
                style: LineStyle::Misses,
            },
            DepositPhase::ReadGold => Action::Detect(Probe::TraderGold),
            DepositPhase::ConfirmLines => Action::ActOnLines {
                output: output_or_empty(e),
                style: LineStyle::Confirm,
            },
            _ => match &self.trader {
                Some(t) => match self.phase {
                    DepositPhase::AskPaid => Action::Ask(
                        Store::HasPaidFee {
                            channel: t.discord_channel_id.clone(),
                            discord: t.discord_id.clone(),
                        },
                    ),
                    DepositPhase::Requesting => Action::SendTradeRequest(t.in_game_id.clone()),
                    DepositPhase::FetchItem { item } => Action::Download {
                        url: t.item_images[item].clone(),
                        slot: ImageSlot::Item,
                    },
                    DepositPhase::FetchInfo { info, .. } => Action::Download {
                        url: t.info_images[info].clone(),
                        slot: ImageSlot::Info,
                    },
                    DepositPhase::AddGold => Action::Ask(
                        Store::AddGoldTraded {
                            channel: t.discord_channel_id.clone(),
                            discord: t.discord_id.clone(),
                            amount: self.gold,
                        },
                    ),
                    DepositPhase::SetStatus { pair } => {
                        let (info, item) = self.pairs[pair];
                        Action::Ask(
                            Store::SetItemStatus {
                                item_url: t.item_images[item].clone(),
                                info_url: t.info_images[info].clone(),
                                status: ItemStatus::InEscrow,
                            },
                        )
                    },
                    _ => Action::ReturnToLobby,
                },
                None => Action::ReturnToLobby,
            },
        }
    }

    /// Moves on by one step: takes what the host observed of the last action
    /// and returns the next action.
    pub fn step(&mut self, e: &Event) -> (a: Action)
        requires
            deposit_inv(old(self).trader, old(self).model()),
        ensures
            final(self).trader == old(self).trader,
            final(self).model() == deposit_next(old(self).trader, old(self).model(), *e),
            deposit_inv(final(self).trader, final(self).model()),
            deposit_entry(final(self).trader, final(self).model(), *e, a),
    {
        let ghost m = self.model();
        self.advance(e);
        let _ = self.findings.len();
        let _ = self.pairs.len();
        proof {
            lemma_deposit_inv(self.trader, m, *e);
            lemma_next_phase(self.trader, m, *e);
        }
        self.entry(e)
    }
}

/// A deposit accepts the trade only where no record it made, of the gold or
/// of an item, failed.
pub proof fn lemma_deposit_accepts_after_record(tr: Option<Trader>, m: DepositModel, e: Event)
    requires
        deposit_inv(tr, m),
        deposit_next(tr, m, e).findings.len() <= usize::MAX,
    ensures
        deposit_next(tr, m, e).phase is FindConfirm ==> deposit_next(tr, m, e).status is Succeeded,
{
    lemma_next_phase(tr, m, e);
}

/// Once a record of a deposit failed, the deposit keeps that failure through
/// every later record, so it will not accept the trade.
pub proof fn lemma_deposit_failure_stands(tr: Option<Trader>, m: DepositModel, e: Event)
    requires
        record_failed(m.status),
        m.phase is SetStatus,
    ensures
        deposit_next(tr, m, e).status == m.status,
{
}

/// A deposit whose trade window holds neither gold nor any of the trader's
/// items fails with `Something went wrong`, without recording anything.
pub proof fn lemma_deposit_empty_fails(tr: Option<Trader>, m: DepositModel, e: Event)
    requires
        m.phase is ReadGold,
        m.pairs.len() == 0,
        !(e is Panicked),
        printed(e) matches Some(out) ==> gold_reading(out) matches Some(g) && g <= 0,
    ensures
        deposit_next(tr, m, e).phase == DepositPhase::Leaving(Note::SomethingWrong),
{
}

/// A deposit ends only right after going back to the lobby.
pub proof fn lemma_deposit_ends_from_lobby(tr: Option<Trader>, m: DepositModel, e: Event)
    requires
        deposit_inv(tr, m),
        deposit_next(tr, m, e).findings.len() <= usize::MAX,
    ensures
        deposit_next(tr, m, e).phase is Done && !(m.phase is Done) ==> m.phase is Closing
            || m.phase is Succeeding,
{
    lemma_next_phase(tr, m, e);
}

/// At the readiness check a deposit launches the game where it is not
/// running, waits where it is starting, and goes on where it is ready.
pub proof fn lemma_deposit_readiness(tr: Option<Trader>, m: DepositModel, e: Event, a: Action)
    requires
        m.phase is CheckReady,
    ensures
        e == Event::Ready(ReadyState::False) ==> deposit_next(tr, m, e).phase is Launching && (
        deposit_entry(tr, deposit_next(tr, m, e), e, a) <==> a == Action::LaunchGame),
        e == Event::Ready(ReadyState::Starting) ==> deposit_next(tr, m, e).phase is Waiting && (
        deposit_entry(tr, deposit_next(tr, m, e), e, a) <==> a == Action::Pause(2000)),
        e == Event::Ready(ReadyState::True) && tr is Some ==> deposit_next(tr, m, e).phase is AskPaid,
{
}

} // verus!
