//! Handing over the items held in escrow: the items the other side of a
//! trade put in go to the caller (a claim), or the caller's own items go back
//! to them (a return). The bot puts the matching items from its inventory or
//! stash into the trade window, checks which of them made it there, and once
//! the trader accepts, records their new status.

use vstd::prelude::*;
use crate::detect::{Finding, detected, findings, read_findings, was_detected};
use crate::flows::common::{
    Action, Event, ImageSlot, ItemStatus, LineStyle, Note, Outcome, Probe, Store, output_text,
    event_saw, printed, ran, saw,
};
use crate::flows::deposit::{info_count, item_count};
use crate::flows::handover::{Handover, find_source, source_found};
use crate::traders::{ReadyState, Trader, TradersContainer};

verus! {

/// The most items that one trade holds.
pub const ITEM_LIMIT: usize = 25;

/// The status the items of a hand-over get.
pub open spec fn mode_status(mode: Handover) -> ItemStatus {
    match mode {
        Handover::Claim => ItemStatus::Traded,
        Handover::Return => ItemStatus::Returned,
    }
}

/// Where a hand-over stands. `item` indexes the item images of the trader
/// whose items move, `line` the lines of a detector's output, `info` the info
/// images, and `pair` the pairs found.
#[derive(PartialEq, Eq, Structural, Clone, Copy, Debug)]
pub enum ItemsPhase {
    Start,
    CheckReady,
    Launching,
    Waiting,
    AskCount,
    Requesting,
    FetchItem { item: usize },
    FindItem { item: usize },
    FindStash { item: usize },
    ClickStash { item: usize },
    RetryItem { item: usize },
    LineAway { item: usize, line: usize },
    LineClick { item: usize, line: usize },
    MoveToItem { item: usize, line: usize },
    FetchInfo { item: usize, line: usize, info: usize },
    MatchInfo { item: usize, line: usize, info: usize },
    PickInfo { item: usize, line: usize, info: usize },
    FindCheckbox,
    ClickCheckbox,
    SecondPhase,
    Inspect,
    InspectLines,
    CheckFetch { pair: usize },
    CheckFind { pair: usize },
    CheckAway { pair: usize, line: usize },
    CheckClick { pair: usize, line: usize },
    CheckMove { pair: usize, line: usize },
    CheckFetchInfo { pair: usize, line: usize, info: usize },
    CheckMatch { pair: usize, line: usize, info: usize },
    CheckMatchAway { pair: usize, line: usize, info: usize },
    CheckMatchClick { pair: usize, line: usize, info: usize },
    AwaitAccept,
    FindConfirm,
    ConfirmLines,
    Mark { pair: usize },
    Succeeding,
    Leaving(Note),
    Closing(Note),
    Done(Outcome),
}

/// What a hand-over has gathered so far.
pub struct ItemsModel {
    pub phase: ItemsPhase,
    /// The findings of the last item detector that ran.
    pub findings: Seq<Finding>,
    /// The (info image, item image) index pairs put into the trade window.
    pub pairs: Seq<(usize, usize)>,
    /// For each pair, whether it is still taken to be in the trade window:
    /// all of them once the check starts, and a pair whose check fails is
    /// dropped.
    pub passed: Seq<bool>,
}

/// The phase for item `i`, with `held` items in the window: fetch it, or go
/// on to the trade once every item is done or the window is full.
pub open spec fn item_phase(tr: Option<Trader>, held: int, i: int) -> ItemsPhase {
    if 0 <= i < item_count(tr) && held < ITEM_LIMIT {
        ItemsPhase::FetchItem { item: i as usize }
    } else {
        ItemsPhase::FindCheckbox
    }
}

/// The phase for line `j` of the findings of item `i`.
pub open spec fn line_phase(tr: Option<Trader>, fs: Seq<Finding>, held: int, i: int, j: int) -> ItemsPhase
    decreases fs.len() - j,
{
    if j < 0 || j >= fs.len() {
        item_phase(tr, held, i + 1)
    } else {
        match fs[j] {
            Finding::Missing => ItemsPhase::LineAway { item: i as usize, line: j as usize },
            Finding::Found(_) => ItemsPhase::MoveToItem { item: i as usize, line: j as usize },
            Finding::Ignored => line_phase(tr, fs, held, i, j + 1),
            Finding::Malformed => ItemsPhase::Closing(Note::Panicked),
        }
    }
}

/// The phase for info image `k` at line `j` of item `i`, with `held` items in
/// the window: once the window holds the most items a trade holds, go on to
/// the trade.
pub open spec fn info_phase(tr: Option<Trader>, fs: Seq<Finding>, held: int, i: int, j: int, k: int) -> ItemsPhase {
    if held >= ITEM_LIMIT {
        ItemsPhase::FindCheckbox
    } else if 0 <= k < info_count(tr) {
        ItemsPhase::FetchInfo { item: i as usize, line: j as usize, info: k as usize }
    } else {
        line_phase(tr, fs, held, i, j + 1)
    }
}

/// Whether some pair is still taken to be in the trade window.
pub open spec fn any_passed(passed: Seq<bool>) -> bool {
    exists|k: int| 0 <= k < passed.len() && #[trigger] passed[k]
}

/// The phase for the `n`-th pair of the check, or what follows the check.
pub open spec fn check_phase(pairs: Seq<(usize, usize)>, passed: Seq<bool>, n: int) -> ItemsPhase {
    if 0 <= n < pairs.len() {
        ItemsPhase::CheckFetch { pair: n as usize }
    } else if !any_passed(passed) {
        ItemsPhase::Leaving(Note::NoItemsFound)
    } else {
        ItemsPhase::AwaitAccept
    }
}

/// The phase for line `j` of the findings of the `n`-th pair of the check.
pub open spec fn check_line_phase(
    tr: Option<Trader>,
    fs: Seq<Finding>,
    pairs: Seq<(usize, usize)>,
    passed: Seq<bool>,
    n: int,
    j: int,
) -> ItemsPhase
    decreases fs.len() - j,
{
    if j < 0 || j >= fs.len() {
        check_phase(pairs, passed, n + 1)
    } else {
        match fs[j] {
            Finding::Missing => ItemsPhase::CheckAway { pair: n as usize, line: j as usize },
            Finding::Found(_) => ItemsPhase::CheckMove { pair: n as usize, line: j as usize },
            Finding::Ignored => check_line_phase(tr, fs, pairs, passed, n, j + 1),
            Finding::Malformed => ItemsPhase::Closing(Note::Panicked),
        }
    }
}

/// The phase for info image `k` at line `j` of the `n`-th pair of the check.
pub open spec fn check_info_phase(
    tr: Option<Trader>,
    fs: Seq<Finding>,
    pairs: Seq<(usize, usize)>,
    passed: Seq<bool>,
    n: int,
    j: int,
    k: int,
) -> ItemsPhase {
    if 0 <= k < info_count(tr) {
        ItemsPhase::CheckFetchInfo { pair: n as usize, line: j as usize, info: k as usize }
    } else {
        check_line_phase(tr, fs, pairs, passed, n, j + 1)
    }
}

/// The phase that records the first pair from the `n`-th on that passed the
/// check, or the end.
pub open spec fn mark_phase(passed: Seq<bool>, n: int) -> ItemsPhase
    decreases passed.len() - n,
{
    if n < 0 || n >= passed.len() {
        ItemsPhase::Succeeding
    } else if passed[n] {
        ItemsPhase::Mark { pair: n as usize }
    } else {
        mark_phase(passed, n + 1)
    }
}

/// The state after an item detector's output: a miss leads to `missed`,
/// anything else to its lines.
pub open spec fn after_item_output(
    tr: Option<Trader>,
    m: ItemsModel,
    item: int,
    out: Seq<char>,
    missed: ItemsPhase,
) -> ItemsModel {
    if detected(out) {
        let fs = findings(out);
        ItemsModel { phase: line_phase(tr, fs, m.pairs.len() as int, item, 0), findings: fs, ..m }
    } else {
        ItemsModel { phase: missed, ..m }
    }
}

/// The next state of a hand-over of the items of `tr`.
pub open spec fn items_next(tr: Option<Trader>, m: ItemsModel, e: Event) -> ItemsModel {
    let p = m.phase;
    let to = |q: ItemsPhase| ItemsModel { phase: q, ..m };
    let held = m.pairs.len() as int;
    if e is Panicked && !(p is Done) {
        if p is Closing {
            to(ItemsPhase::Done(Outcome::Failed(Note::Panicked)))
        } else {
            to(ItemsPhase::Closing(Note::Panicked))
        }
    } else {
        match p {
            ItemsPhase::Start => to(ItemsPhase::CheckReady),
            ItemsPhase::CheckReady => match e {
                Event::Ready(ReadyState::True) => if tr is Some {
                    to(ItemsPhase::AskCount)
                } else {
                    to(ItemsPhase::Closing(Note::Panicked))
                },
                Event::Ready(ReadyState::False) => to(ItemsPhase::Launching),
                Event::Ready(ReadyState::Starting) => to(ItemsPhase::Waiting),
                _ => to(ItemsPhase::CheckReady),
            },
            ItemsPhase::Launching => to(ItemsPhase::CheckReady),
            ItemsPhase::Waiting => to(ItemsPhase::CheckReady),
            ItemsPhase::AskCount => match e {
                Event::Count(Some(c)) => if c > 0 {
                    to(ItemsPhase::Requesting)
                } else {
                    to(ItemsPhase::Closing(Note::NoEscrowItems))
                },
                _ => to(ItemsPhase::Closing(Note::NoEscrowItems)),
            },
            ItemsPhase::Requesting => match e {
                Event::Requested(Some(true)) => to(item_phase(tr, held, 0)),
                Event::Requested(Some(false)) => to(ItemsPhase::Leaving(Note::PlayerDeclinedTrade)),
                _ => to(ItemsPhase::Closing(Note::Panicked)),
            },
            ItemsPhase::FetchItem { item } => if e == Event::Fetched(true) {
                to(ItemsPhase::FindItem { item })
            } else {
                to(ItemsPhase::Leaving(Note::DownloadFailed))
            },
            ItemsPhase::FindItem { item } => match printed(e) {
                Some(out) => after_item_output(tr, m, item as int, out, ItemsPhase::FindStash { item }),
                None => to(ItemsPhase::Closing(Note::Panicked)),
            },
            ItemsPhase::FindStash { item } => if ran(e) {
                to(ItemsPhase::ClickStash { item })
            } else {
                to(ItemsPhase::Closing(Note::Panicked))
            },
            ItemsPhase::ClickStash { item } => to(ItemsPhase::RetryItem { item }),
            ItemsPhase::RetryItem { item } => match printed(e) {
                Some(out) => after_item_output(tr, m, item as int, out, ItemsPhase::FindCheckbox),
                None => to(ItemsPhase::Closing(Note::Panicked)),
            },
            ItemsPhase::LineAway { item, line } => to(ItemsPhase::LineClick { item, line }),
            ItemsPhase::LineClick { item, line } => to(
                line_phase(tr, m.findings, held, item as int, line + 1),
            ),
            ItemsPhase::MoveToItem { item, line } => to(
                info_phase(tr, m.findings, held, item as int, line as int, 0),
            ),
            ItemsPhase::FetchInfo { item, line, info } => if e == Event::Fetched(true) {
                to(ItemsPhase::MatchInfo { item, line, info })
            } else {
                to(ItemsPhase::Leaving(Note::PlayerDeclined))
            },
            ItemsPhase::MatchInfo { item, line, info } => match printed(e) {
                Some(out) => if detected(out) {
                    ItemsModel {
                        phase: ItemsPhase::PickInfo { item, line, info },
                        pairs: m.pairs.push((info, item)),
                        ..m
                    }
                } else {
                    to(info_phase(tr, m.findings, held, item as int, line as int, info + 1))
                },
                None => to(ItemsPhase::Closing(Note::Panicked)),
            },
            ItemsPhase::PickInfo { item, line, info } => to(
                info_phase(tr, m.findings, held, item as int, line as int, info + 1),
            ),
            ItemsPhase::FindCheckbox => if ran(e) {
                to(ItemsPhase::ClickCheckbox)
            } else {
                to(ItemsPhase::Closing(Note::Panicked))
            },
            ItemsPhase::ClickCheckbox => to(ItemsPhase::SecondPhase),
            ItemsPhase::SecondPhase => if saw(e) {
                to(ItemsPhase::Inspect)
            } else {
                to(ItemsPhase::Leaving(Note::TradeNotAccepted))
            },
            ItemsPhase::Inspect => if ran(e) {
                to(ItemsPhase::InspectLines)
            } else {
                to(ItemsPhase::Closing(Note::Panicked))
            },
            ItemsPhase::InspectLines => {
                let passed = Seq::new(m.pairs.len(), |n: int| true);
                ItemsModel { phase: check_phase(m.pairs, passed, 0), passed, ..m }
            },
            ItemsPhase::CheckFetch { pair } => if e == Event::Fetched(true) {
                to(ItemsPhase::CheckFind { pair })
            } else {
                to(ItemsPhase::Leaving(Note::DownloadFailed))
            },
            ItemsPhase::CheckFind { pair } => match printed(e) {
                Some(out) => {
                    let fs = findings(out);
                    ItemsModel {
                        phase: check_line_phase(tr, fs, m.pairs, m.passed, pair as int, 0),
                        findings: fs,
                        ..m
                    }
                },
                None => to(ItemsPhase::Leaving(Note::ItemNotFound)),
            },
            ItemsPhase::CheckAway { pair, line } => to(ItemsPhase::CheckClick { pair, line }),
            ItemsPhase::CheckClick { pair, line } => to(
                check_line_phase(tr, m.findings, m.pairs, m.passed, pair as int, line + 1),
            ),
            ItemsPhase::CheckMove { pair, line } => to(
                check_info_phase(tr, m.findings, m.pairs, m.passed, pair as int, line as int, 0),
            ),
            ItemsPhase::CheckFetchInfo { pair, line, info } => if e == Event::Fetched(true) {
                to(ItemsPhase::CheckMatch { pair, line, info })
            } else {
                to(ItemsPhase::Leaving(Note::DownloadFailed))
            },
            ItemsPhase::CheckMatch { pair, line, info } => if ran(e) {
                to(ItemsPhase::CheckMatchAway { pair, line, info })
            } else {
                let passed = m.passed.update(pair as int, false);
                ItemsModel {
                    phase: check_info_phase(
                        tr,
                        m.findings,
                        m.pairs,
                        passed,
                        pair as int,
                        line as int,
                        info + 1,
                    ),
                    passed,
                    ..m
                }
            },
            ItemsPhase::CheckMatchAway { pair, line, info } => to(
                ItemsPhase::CheckMatchClick { pair, line, info },
            ),
            ItemsPhase::CheckMatchClick { pair, line, info } => to(
                check_info_phase(tr, m.findings, m.pairs, m.passed, pair as int, line as int, info + 1),
            ),
            ItemsPhase::AwaitAccept => if saw(e) {
                to(ItemsPhase::FindConfirm)
            } else {
                to(ItemsPhase::Leaving(Note::TradeNotAccepted))
            },
            ItemsPhase::FindConfirm => if ran(e) {
                to(ItemsPhase::ConfirmLines)
            } else {
                to(ItemsPhase::Closing(Note::Panicked))
            },
            ItemsPhase::ConfirmLines => to(mark_phase(m.passed, 0)),
            ItemsPhase::Mark { pair } => to(mark_phase(m.passed, pair + 1)),
            ItemsPhase::Succeeding => to(ItemsPhase::Done(Outcome::Succeeded(Note::TradeSuccessful))),
            ItemsPhase::Leaving(n) => to(ItemsPhase::Closing(n)),
            ItemsPhase::Closing(n) => to(ItemsPhase::Done(Outcome::Failed(n))),
            ItemsPhase::Done(o) => to(ItemsPhase::Done(o)),
        }
    }
}

/// Whether every pair points into the trader's lists.
pub open spec fn pairs_within(tr: Option<Trader>, ps: Seq<(usize, usize)>) -> bool {
    forall|n: int| 0 <= n < ps.len() ==> (#[trigger] ps[n]).0 < info_count(tr) && ps[n].1 < item_count(tr)
}

/// Whether the check has a flag for every pair.
pub open spec fn checked(m: ItemsModel) -> bool {
    m.passed.len() == m.pairs.len()
}

/// Whether the indices of the phase point into the trader's lists and the
/// findings, no item is fetched or matched once the window is full, and
/// every step after the check knows which pairs passed it.
pub open spec fn phase_within(tr: Option<Trader>, m: ItemsModel) -> bool {
    let ni = item_count(tr);
    let nf = info_count(tr);
    let nl = m.findings.len();
    let np = m.pairs.len();
    match m.phase {
    ItemsPhase::Start | ItemsPhase::CheckReady | ItemsPhase::Launching | ItemsPhase::Waiting
    | ItemsPhase::Leaving(_) | ItemsPhase::Closing(_) | ItemsPhase::Done(_) => true,
    ItemsPhase::FetchItem { item } => tr is Some && item < ni && np < ITEM_LIMIT,
    ItemsPhase::FindItem { item } => tr is Some && item < ni,
    ItemsPhase::FindStash { item } => tr is Some && item < ni,
    ItemsPhase::ClickStash { item } => tr is Some && item < ni,
    ItemsPhase::RetryItem { item } => tr is Some && item < ni,
    ItemsPhase::LineAway { item, line } => tr is Some && item < ni && line < nl,
    ItemsPhase::LineClick { item, line } => tr is Some && item < ni && line < nl,
    ItemsPhase::MoveToItem { item, line } => tr is Some && item < ni && line < nl
        && m.findings[line as int] is Found,
    ItemsPhase::FetchInfo { item, line, info } => tr is Some && item < ni && line < nl && info < nf
        && np < ITEM_LIMIT,
    ItemsPhase::MatchInfo { item, line, info } => tr is Some && item < ni && line < nl && info < nf
        && np < ITEM_LIMIT,
    ItemsPhase::PickInfo { item, line, info } => tr is Some && item < ni && line < nl && info < nf,
    ItemsPhase::CheckFetch { pair } => tr is Some && pair < np && checked(m),
    ItemsPhase::CheckFind { pair } => tr is Some && pair < np && checked(m),
    ItemsPhase::CheckAway { pair, line } => tr is Some && pair < np && line < nl && checked(m),
    ItemsPhase::CheckClick { pair, line } => tr is Some && pair < np && line < nl && checked(m),
    ItemsPhase::CheckMove { pair, line } => tr is Some && pair < np && line < nl
        && m.findings[line as int] is Found && checked(m),
    ItemsPhase::CheckFetchInfo { pair, line, info } => tr is Some && pair < np && line < nl
        && info < nf && checked(m),
    ItemsPhase::CheckMatch { pair, line, info } => tr is Some && pair < np && line < nl
        && info < nf && checked(m),
    ItemsPhase::CheckMatchAway { pair, line, info } => tr is Some && pair < np && line < nl
        && info < nf && checked(m),
    ItemsPhase::CheckMatchClick { pair, line, info } => tr is Some && pair < np && line < nl
        && info < nf && checked(m),
    ItemsPhase::Mark { pair } => tr is Some && pair < np && checked(m) && m.passed[pair as int],
    ItemsPhase::AwaitAccept | ItemsPhase::FindConfirm | ItemsPhase::ConfirmLines
    | ItemsPhase::Succeeding => tr is Some && checked(m) && any_passed(m.passed),
    _ => tr is Some,
}
}

/// What holds of every state that a hand-over reaches: the trader exists
/// once the bot asked about the escrow, every index points into its list,
/// and the window never holds more than the most items a trade holds.
pub open spec fn items_inv(tr: Option<Trader>, m: ItemsModel) -> bool {
    let ni = item_count(tr);
    let nf = info_count(tr);
    let nl = m.findings.len();
    &&& ni <= usize::MAX
    &&& nf <= usize::MAX
    &&& nl <= usize::MAX
    &&& m.pairs.len() <= ITEM_LIMIT
    &&& m.passed.len() <= ITEM_LIMIT
    &&& pairs_within(tr, m.pairs)
    &&& phase_within(tr, m)
}

proof fn lemma_line_phase(tr: Option<Trader>, fs: Seq<Finding>, held: int, i: int, j: int)
    requires
        tr is Some,
        fs.len() <= usize::MAX,
        item_count(tr) <= usize::MAX,
        0 <= i < item_count(tr),
    ensures
        match line_phase(tr, fs, held, i, j) {
            ItemsPhase::LineAway { item, line } => item == i && 0 <= line < fs.len(),
            ItemsPhase::MoveToItem { item, line } => item == i && 0 <= line < fs.len()
                && fs[line as int] is Found,
            ItemsPhase::FetchItem { item } => item < item_count(tr) && held < ITEM_LIMIT,
            ItemsPhase::FindCheckbox => true,
            ItemsPhase::Closing(_) => true,
            _ => false,
        },
    decreases fs.len() - j,
{
    if j < 0 || j >= fs.len() {
    } else if fs[j] is Ignored {
        lemma_line_phase(tr, fs, held, i, j + 1);
    }
}

proof fn lemma_check_line_phase(
    tr: Option<Trader>,
    fs: Seq<Finding>,
    pairs: Seq<(usize, usize)>,
    passed: Seq<bool>,
    n: int,
    j: int,
)
    requires
        fs.len() <= usize::MAX,
        pairs.len() <= usize::MAX,
        0 <= n < pairs.len(),
    ensures
        match check_line_phase(tr, fs, pairs, passed, n, j) {
            ItemsPhase::CheckAway { pair, line } => pair == n && 0 <= line < fs.len(),
            ItemsPhase::CheckMove { pair, line } => pair == n && 0 <= line < fs.len()
                && fs[line as int] is Found,
            ItemsPhase::CheckFetch { pair } => pair < pairs.len(),
            ItemsPhase::AwaitAccept => any_passed(passed),
            ItemsPhase::Leaving(_) => true,
            ItemsPhase::Closing(_) => true,
            _ => false,
        },
    decreases fs.len() - j,
{
    if j < 0 || j >= fs.len() {
    } else if fs[j] is Ignored {
        lemma_check_line_phase(tr, fs, pairs, passed, n, j + 1);
    }
}

/// The records of a hand-over go through the pairs that passed the check in
/// their order: from pair `n` on, the next pair recorded is the first that
/// passed, and the hand-over goes on to succeed only once no pair from `n` on
/// passed. So each pair that passed is recorded once, and no other.
pub proof fn lemma_mark_phase(passed: Seq<bool>, n: int)
    requires
        0 <= n,
        passed.len() <= usize::MAX,
    ensures
        match mark_phase(passed, n) {
            ItemsPhase::Mark { pair } => n <= pair < passed.len() && passed[pair as int]
                && forall|k: int| n <= k < pair ==> !#[trigger] passed[k],
            ItemsPhase::Succeeding => forall|k: int| n <= k < passed.len() ==> !#[trigger] passed[k],
            _ => false,
        },
    decreases passed.len() - n,
{
    if n < passed.len() && !passed[n] {
        lemma_mark_phase(passed, n + 1);
    }
}

/// The facts about the phase after a step that the lemmas below need.
proof fn lemma_next_phase(tr: Option<Trader>, m: ItemsModel, e: Event)
    requires
        items_inv(tr, m),
        items_next(tr, m, e).findings.len() <= usize::MAX,
    ensures
        phase_within(tr, items_next(tr, m, e)),
        ({
            let p = items_next(tr, m, e).phase;
            &&& p is InspectLines || p is ConfirmLines ==> ran(e)
            &&& p is Done && !(m.phase is Done) ==> m.phase is Closing || m.phase is Succeeding
        }),
{
    let held = m.pairs.len() as int;
    let m2 = items_next(tr, m, e);
    match m.phase {
        ItemsPhase::FindItem { item } => {
            if let Some(out) = printed(e) {
                if detected(out) {
                    lemma_line_phase(tr, findings(out), held, item as int, 0);
                }
            }
        },
        ItemsPhase::RetryItem { item } => {
            if let Some(out) = printed(e) {
                if detected(out) {
                    lemma_line_phase(tr, findings(out), held, item as int, 0);
                }
            }
        },
        ItemsPhase::LineClick { item, line } => {
            lemma_line_phase(tr, m.findings, held, item as int, line + 1);
        },
        ItemsPhase::MoveToItem { item, line } => {
            lemma_line_phase(tr, m.findings, held, item as int, line + 1);
        },
        ItemsPhase::MatchInfo { item, line, info } => {
            lemma_line_phase(tr, m.findings, held, item as int, line + 1);
            lemma_line_phase(tr, m.findings, held + 1, item as int, line + 1);
        },
        ItemsPhase::PickInfo { item, line, info } => {
            lemma_line_phase(tr, m.findings, held, item as int, line + 1);
        },
        ItemsPhase::InspectLines => {
            if !(e is Panicked) && m.pairs.len() > 0 {
                assert(m2.passed[0]);
            }
        },
        ItemsPhase::CheckFind { pair } => {
            if let Some(out) = printed(e) {
                lemma_check_line_phase(tr, findings(out), m.pairs, m.passed, pair as int, 0);
            }
        },
        ItemsPhase::CheckClick { pair, line } => {
            lemma_check_line_phase(tr, m.findings, m.pairs, m.passed, pair as int, line + 1);
        },
        ItemsPhase::CheckMove { pair, line } => {
            lemma_check_line_phase(tr, m.findings, m.pairs, m.passed, pair as int, line + 1);
        },
        ItemsPhase::CheckMatch { pair, line, info } => {
            lemma_check_line_phase(tr, m.findings, m.pairs, m.passed, pair as int, line + 1);
            lemma_check_line_phase(
                tr,
                m.findings,
                m.pairs,
                m.passed.update(pair as int, false),
                pair as int,
                line + 1,
            );
        },
        ItemsPhase::CheckMatchClick { pair, line, info } => {
            lemma_check_line_phase(tr, m.findings, m.pairs, m.passed, pair as int, line + 1);
        },
        ItemsPhase::ConfirmLines => {
            lemma_mark_phase(m.passed, 0);
        },
        ItemsPhase::Mark { pair } => {
            lemma_mark_phase(m.passed, pair + 1);
        },
        _ => {},
    }
}

/// Every step of a hand-over keeps its invariant.
pub proof fn lemma_items_inv(tr: Option<Trader>, m: ItemsModel, e: Event)
    requires
        items_inv(tr, m),
        items_next(tr, m, e).findings.len() <= usize::MAX,
    ensures
        items_inv(tr, items_next(tr, m, e)),
{
    let m2 = items_next(tr, m, e);
    lemma_next_phase(tr, m, e);
    if let ItemsPhase::MatchInfo { item, line, info } = m.phase {
        if let Some(out) = printed(e) {
            if detected(out) {
                assert forall|n: int| 0 <= n < m2.pairs.len() implies (#[trigger] m2.pairs[n]).0
                    < info_count(tr) && m2.pairs[n].1 < item_count(tr) by {
                    if n < m.pairs.len() {
                        assert(m2.pairs[n] == m.pairs[n]);
                    }
                }
            }
        }
    }
}

/// The action that starts a phase of a hand-over of the items of `tr`,
/// asked for by the player `in_game_id`, given the event that led there.
pub open spec fn items_entry(
    tr: Option<Trader>,
    in_game_id: Seq<char>,
    mode: Handover,
    m: ItemsModel,
    e: Event,
    a: Action,
) -> bool {
    let t = tr->0;
    match m.phase {
        ItemsPhase::Start => a == Action::Pause(0),
        ItemsPhase::CheckReady => a == Action::CheckReady,
        ItemsPhase::Launching => a == Action::LaunchGame,
        ItemsPhase::Waiting => a == Action::Pause(2000),
        ItemsPhase::AskCount => a matches Action::Ask(Store::EscrowCount { channel, discord })
            && channel@ == t.discord_channel_id@ && discord@ == t.discord_id@,
        ItemsPhase::Requesting => a matches Action::SendTradeRequest(s) && s@ == in_game_id,
        ItemsPhase::FetchItem { item } => a matches Action::Download { url, slot } && url
            == t.item_images@[item as int] && slot == ImageSlot::Item,
        ItemsPhase::FindItem { .. } => a == Action::Detect(Probe::ItemInStorage),
        ItemsPhase::FindStash { .. } => a == Action::Detect(Probe::Stash),
        ItemsPhase::ClickStash { .. } => a == Action::ClickDetected { smooth: true, offset_y: 0 },
        ItemsPhase::RetryItem { .. } => a == Action::Detect(Probe::ItemInStorage),
        ItemsPhase::LineAway { .. } => a == Action::MoveAway,
        ItemsPhase::LineClick { .. } => a == Action::LeftClick,
        ItemsPhase::MoveToItem { line, .. } => m.findings[line as int] matches Finding::Found(r)
            && a == Action::MoveToRegion(r),
        ItemsPhase::FetchInfo { info, .. } => a matches Action::Download { url, slot } && url
            == t.info_images@[info as int] && slot == ImageSlot::Info,
        ItemsPhase::MatchInfo { .. } => a == Action::Detect(Probe::InfoMatch),
        ItemsPhase::PickInfo { .. } => a == Action::LeftClick,
        ItemsPhase::FindCheckbox => a == Action::Detect(Probe::TradeCheckbox),
        ItemsPhase::ClickCheckbox => a == Action::ClickDetected { smooth: true, offset_y: 0 },
        ItemsPhase::SecondPhase => a == Action::Detect(Probe::SecondPhase),
        ItemsPhase::Inspect => a == Action::Detect(Probe::InspectItems),
        ItemsPhase::InspectLines => a matches Action::ActOnLines { output, style } && printed(e)
            == Some(output@) && style == (LineStyle::Inspect { minimize: true }),
        ItemsPhase::CheckFetch { pair } => a matches Action::Download { url, slot } && url
            == t.item_images@[m.pairs[pair as int].1 as int] && slot == ImageSlot::Item,
        ItemsPhase::CheckFind { .. } => a == Action::Detect(Probe::ItemInWindow),
        ItemsPhase::CheckAway { .. } => a == Action::MoveAway,
        ItemsPhase::CheckClick { .. } => a == Action::LeftClick,
        ItemsPhase::CheckMove { line, .. } => m.findings[line as int] matches Finding::Found(r)
            && a == Action::MoveToRegion(r),
        ItemsPhase::CheckFetchInfo { info, .. } => a matches Action::Download { url, slot } && url
            == t.info_images@[info as int] && slot == ImageSlot::Info,
        ItemsPhase::CheckMatch { .. } => a == Action::Detect(Probe::InfoMatch),
        ItemsPhase::CheckMatchAway { .. } => a == Action::MoveAway,
        ItemsPhase::CheckMatchClick { .. } => a == Action::LeftClick,
        ItemsPhase::AwaitAccept => a == Action::Detect(Probe::TraderReady),
        ItemsPhase::FindConfirm => a == Action::Detect(Probe::TradeCheckbox),
        ItemsPhase::ConfirmLines => a matches Action::ActOnLines { output, style } && printed(e)
            == Some(output@) && style == LineStyle::Confirm,
        ItemsPhase::Mark { pair } => a matches Action::Ask(
            Store::SetItemStatus { item_url, info_url, status },
        ) && item_url == t.item_images@[m.pairs[pair as int].1 as int] && info_url
            == t.info_images@[m.pairs[pair as int].0 as int] && status == mode_status(mode),
        ItemsPhase::Succeeding => a is ReturnToLobby,
        ItemsPhase::Leaving(_) => a is ReturnToLobby,
        ItemsPhase::Closing(_) => a is ReturnToLobby,
        ItemsPhase::Done(o) => a == Action::Finish(o),
    }
}

/// A flag for each of `n` pairs, all set.
fn all_passed(n: usize) -> (r: Vec<bool>)
    ensures
        r@ == Seq::new(n as nat, |k: int| true),
{
    let mut r: Vec<bool> = Vec::new();
    let mut k: usize = 0;
    while k < n
        invariant
            k <= n,
            r@ == Seq::new(k as nat, |q: int| true),
        decreases n - k,
    {
        r.push(true);
        assert(r@ =~= Seq::new((k + 1) as nat, |q: int| true));
        k = k + 1;
    }
    r
}

/// The text of an event's output, or an empty text.
fn output_or_empty(e: &Event) -> (s: String)
    ensures
        printed(*e) matches Some(t) ==> s@ == t,
{
    match output_text(e) {
        Some(t) => t.clone(),
        None => String::new(),
    }
}

/// A hand-over of the items held in escrow.
pub struct ItemsTransfer {
    pub phase: ItemsPhase,
    pub mode: Handover,
    /// The player who asked, and who gets the trade request.
    pub in_game_id: String,
    /// The trader whose items move.
    pub trader: Option<Trader>,
    pub findings: Vec<Finding>,
    pub pairs: Vec<(usize, usize)>,
    pub passed: Vec<bool>,
}

/// A hand-over in `mode`, asked for by the player `in_game_id`.
fn start_items(traders: &TradersContainer, in_game_id: &str, mode: Handover) -> (r: ItemsTransfer)
    ensures
        r.phase == ItemsPhase::Start,
        r.mode == mode,
        r.in_game_id@ == in_game_id@,
        source_found(traders@, in_game_id@, mode, r.trader),
        r.findings@.len() == 0,
        r.pairs@.len() == 0,
        r.passed@.len() == 0,
        items_inv(r.trader, r.model()),
{
    ItemsTransfer {
        phase: ItemsPhase::Start,
        mode,
        in_game_id: in_game_id.to_owned(),
        trader: find_source(traders, in_game_id, mode),
        findings: Vec::new(),
        pairs: Vec::new(),
        passed: Vec::new(),
    }
}

/// A claim by the player `in_game_id` of the items that the other side of
/// their trade put in escrow.
pub fn claim_items(traders: &TradersContainer, in_game_id: &str) -> (r: ItemsTransfer)
    ensures
        r.phase == ItemsPhase::Start,
        r.mode == Handover::Claim,
        r.in_game_id@ == in_game_id@,
        source_found(traders@, in_game_id@, Handover::Claim, r.trader),
        r.findings@.len() == 0,
        r.pairs@.len() == 0,
        r.passed@.len() == 0,
        items_inv(r.trader, r.model()),
{
    start_items(traders, in_game_id, Handover::Claim)
}

/// A return to the player `in_game_id` of their own items in escrow.
pub fn return_items(traders: &TradersContainer, in_game_id: &str) -> (r: ItemsTransfer)
    ensures
        r.phase == ItemsPhase::Start,
        r.mode == Handover::Return,
        r.in_game_id@ == in_game_id@,
        source_found(traders@, in_game_id@, Handover::Return, r.trader),
        r.findings@.len() == 0,
        r.pairs@.len() == 0,
        r.passed@.len() == 0,
        items_inv(r.trader, r.model()),
{
    start_items(traders, in_game_id, Handover::Return)
}

/// The status the items of a hand-over in `mode` get.
fn status_for(mode: Handover) -> (s: ItemStatus)
    ensures
        s == mode_status(mode),
{
    match mode {
        Handover::Claim => ItemStatus::Traded,
        Handover::Return => ItemStatus::Returned,
    }
}

impl ItemsTransfer {
    /// What the hand-over has gathered, as values.
    pub open spec fn model(&self) -> ItemsModel {
        ItemsModel {
            phase: self.phase,
            findings: self.findings@,
            pairs: self.pairs@,
            passed: self.passed@,
        }
    }

    fn items_len(&self) -> (n: usize)
        ensures
            n == item_count(self.trader),
    {
        match &self.trader {
            Some(t) => t.item_images.len(),
            None => 0,
        }
    }

    fn infos_len(&self) -> (n: usize)
        ensures
            n == info_count(self.trader),
    {
        match &self.trader {
            Some(t) => t.info_images.len(),
            None => 0,
        }
    }

    /// The phase for item `i`.
    fn item_phase_at(&self, i: usize) -> (p: ItemsPhase)
        ensures
            p == item_phase(self.trader, self.pairs@.len() as int, i as int),
    {
        if i < self.items_len() && self.pairs.len() < ITEM_LIMIT {
            ItemsPhase::FetchItem { item: i }
        } else {
            ItemsPhase::FindCheckbox
        }
    }

    /// The phase for the item after item `i`.
    fn after_item(&self, i: usize) -> (p: ItemsPhase)
        ensures
            p == item_phase(self.trader, self.pairs@.len() as int, i + 1),
    {
        if i < self.items_len() {
            self.item_phase_at(i + 1)
        } else {
            ItemsPhase::FindCheckbox
        }
    }

    /// The phase for line `j` of item `i`'s findings.
    fn line_phase_at(&self, i: usize, j: usize) -> (p: ItemsPhase)
        ensures
            p == line_phase(self.trader, self.findings@, self.pairs@.len() as int, i as int, j as int),
    {
        let ghost held = self.pairs@.len() as int;
        let mut k = j;
        while k < self.findings.len() && matches!(self.findings[k], Finding::Ignored)
            invariant
                j <= k,
                line_phase(self.trader, self.findings@, held, i as int, j as int) == line_phase(
                    self.trader,
                    self.findings@,
                    held,
                    i as int,
                    k as int,
                ),
            decreases self.findings@.len() - k,
        {
            k = k + 1;
        }
        if k >= self.findings.len() {
            return self.after_item(i);
        }
        match self.findings[k] {
            Finding::Missing => ItemsPhase::LineAway { item: i, line: k },
            Finding::Found(_) => ItemsPhase::MoveToItem { item: i, line: k },
            _ => ItemsPhase::Closing(Note::Panicked),
        }
    }

    /// The phase for the line after line `j` of item `i`'s findings.
    fn after_line(&self, i: usize, j: usize) -> (p: ItemsPhase)
        ensures
            p == line_phase(self.trader, self.findings@, self.pairs@.len() as int, i as int, j + 1),
    {
        if j < self.findings.len() {
            self.line_phase_at(i, j + 1)
        } else {
            self.after_item(i)
        }
    }

    /// The phase for info image `k` at line `j` of item `i`.
    fn info_phase_at(&self, i: usize, j: usize, k: usize) -> (p: ItemsPhase)
        ensures
            p == info_phase(self.trader, self.findings@, self.pairs@.len() as int, i as int, j as int, k as int),
    {
        if self.pairs.len() >= ITEM_LIMIT {
            ItemsPhase::FindCheckbox
        } else if k < self.infos_len() {
            ItemsPhase::FetchInfo { item: i, line: j, info: k }
        } else {
            self.after_line(i, j)
        }
    }

    /// The phase for the info image after info image `k`.
    fn after_info(&self, i: usize, j: usize, k: usize) -> (p: ItemsPhase)
        ensures
            p == info_phase(self.trader, self.findings@, self.pairs@.len() as int, i as int, j as int, k + 1),
    {
        if self.pairs.len() >= ITEM_LIMIT {
            ItemsPhase::FindCheckbox
        } else if k < self.infos_len() {
            self.info_phase_at(i, j, k + 1)
        } else {
            self.after_line(i, j)
        }
    }

    /// The phase for the `n`-th pair of the check.
    fn check_phase_at(&self, n: usize) -> (p: ItemsPhase)
        ensures
            p == check_phase(self.pairs@, self.passed@, n as int),
    {
        if n < self.pairs.len() {
            ItemsPhase::CheckFetch { pair: n }
        } else if !self.any_passed() {
            ItemsPhase::Leaving(Note::NoItemsFound)
        } else {
            ItemsPhase::AwaitAccept
        }
    }

    /// The phase for the pair after the `n`-th.
    fn after_check(&self, n: usize) -> (p: ItemsPhase)
        ensures
            p == check_phase(self.pairs@, self.passed@, n + 1),
    {
        if n < self.pairs.len() {
            self.check_phase_at(n + 1)
        } else {
            self.check_phase_at(n)
        }
    }

    /// The phase for line `j` of the `n`-th pair's findings.
    fn check_line_phase_at(&self, n: usize, j: usize) -> (p: ItemsPhase)
        ensures
            p == check_line_phase(self.trader, self.findings@, self.pairs@, self.passed@, n as int, j as int),
    {
        let mut k = j;
        while k < self.findings.len() && matches!(self.findings[k], Finding::Ignored)
            invariant
                j <= k,
                check_line_phase(self.trader, self.findings@, self.pairs@, self.passed@, n as int, j as int)
                    == check_line_phase(
                    self.trader,
                    self.findings@,
                    self.pairs@,
                    self.passed@,
                    n as int,
                    k as int,
                ),
            decreases self.findings@.len() - k,
        {
            k = k + 1;
        }
        if k >= self.findings.len() {
            return self.after_check(n);
        }
        match self.findings[k] {
            Finding::Missing => ItemsPhase::CheckAway { pair: n, line: k },
            Finding::Found(_) => ItemsPhase::CheckMove { pair: n, line: k },
            _ => ItemsPhase::Closing(Note::Panicked),
        }
    }

    /// The phase for the line after line `j` of the `n`-th pair's findings.
    fn after_check_line(&self, n: usize, j: usize) -> (p: ItemsPhase)
        ensures
            p == check_line_phase(self.trader, self.findings@, self.pairs@, self.passed@, n as int, j + 1),
    {
        if j < self.findings.len() {
            self.check_line_phase_at(n, j + 1)
        } else {
            self.after_check(n)
        }
    }

    /// The phase for info image `k` at line `j` of the `n`-th pair.
    fn check_info_phase_at(&self, n: usize, j: usize, k: usize) -> (p: ItemsPhase)
        ensures
            p == check_info_phase(
                self.trader,
                self.findings@,
                self.pairs@,
                self.passed@,
                n as int,
                j as int,
                k as int,
            ),
    {
        if k < self.infos_len() {
            ItemsPhase::CheckFetchInfo { pair: n, line: j, info: k }
        } else {
            self.after_check_line(n, j)
        }
    }

    /// The phase for the info image after info image `k` at line `j` of the
    /// `n`-th pair.
    fn after_check_info(&self, n: usize, j: usize, k: usize) -> (p: ItemsPhase)
        ensures
            p == check_info_phase(
                self.trader,
                self.findings@,
                self.pairs@,
                self.passed@,
                n as int,
                j as int,
                k + 1,
            ),
    {
        if k < self.infos_len() {
            self.check_info_phase_at(n, j, k + 1)
        } else {
            self.after_check_line(n, j)
        }
    }

    /// Whether some pair passed the check.
    fn any_passed(&self) -> (r: bool)
        ensures
            r == any_passed(self.passed@),
    {
        let mut k: usize = 0;
        while k < self.passed.len()
            invariant
                k <= self.passed@.len(),
                forall|q: int| 0 <= q < k ==> !#[trigger] self.passed@[q],
            decreases self.passed@.len() - k,
        {
            if self.passed[k] {
                return true;
            }
            k = k + 1;
        }
        false
    }

    /// The phase that records the first pair from the `n`-th on that passed
    /// the check.
    fn mark_from(&self, n: usize) -> (p: ItemsPhase)
        ensures
            p == mark_phase(self.passed@, n as int),
    {
        let mut k = n;
        while k < self.passed.len() && !self.passed[k]
            invariant
                n <= k,
                mark_phase(self.passed@, n as int) == mark_phase(self.passed@, k as int),
            decreases self.passed@.len() - k,
        {
            k = k + 1;
        }
        if k < self.passed.len() {
            ItemsPhase::Mark { pair: k }
        } else {
            ItemsPhase::Succeeding
        }
    }

    /// The phase that records the first pair after the `n`-th that passed
    /// the check.
    fn after_mark(&self, n: usize) -> (p: ItemsPhase)
        ensures
            p == mark_phase(self.passed@, n + 1),
    {
        if n < self.passed.len() {
            self.mark_from(n + 1)
        } else {
            ItemsPhase::Succeeding
        }
    }

    /// Takes the output of an item detector for item `item`.
    fn take_item_output(&mut self, item: usize, out: &str, missed: ItemsPhase)
        ensures
            final(self).trader == old(self).trader,
            final(self).mode == old(self).mode,
            final(self).in_game_id == old(self).in_game_id,
            final(self).model() == after_item_output(
                old(self).trader,
                old(self).model(),
                item as int,
                out@,
                missed,
            ),
    {
        if was_detected(out) {
            self.findings = read_findings(out);
            self.phase = self.line_phase_at(item, 0);
        } else {
            self.phase = missed;
        }
    }

    /// Takes the host's observation and moves to the next state.
    fn advance(&mut self, e: &Event)
        requires
            items_inv(old(self).trader, old(self).model()),
        ensures
            final(self).trader == old(self).trader,
            final(self).mode == old(self).mode,
            final(self).in_game_id == old(self).in_game_id,
            final(self).model() == items_next(old(self).trader, old(self).model(), *e),
    {
        let panicked = ItemsPhase::Closing(Note::Panicked);
        if matches!(e, Event::Panicked) && !matches!(self.phase, ItemsPhase::Done(_)) {
            if matches!(self.phase, ItemsPhase::Closing(_)) {
                self.phase = ItemsPhase::Done(Outcome::Failed(Note::Panicked));
            } else {
                self.phase = panicked;
            }
            return;
        }
        let ran = output_text(e).is_some();
        let saw = event_saw(e);
        let fetched = matches!(e, Event::Fetched(true));
        match self.phase {
            ItemsPhase::FindItem { item } => {
                match output_text(e) {
                    Some(out) => self.take_item_output(item, out.as_str(), ItemsPhase::FindStash { item }),
                    None => self.phase = panicked,
                }
                return;
            },
            ItemsPhase::RetryItem { item } => {
                match output_text(e) {
                    Some(out) => self.take_item_output(item, out.as_str(), ItemsPhase::FindCheckbox),
                    None => self.phase = panicked,
                }
                return;
            },
            _ => {},
        }
        let next = match self.phase {
            ItemsPhase::Start => ItemsPhase::CheckReady,
            ItemsPhase::CheckReady => match e {
                Event::Ready(ReadyState::True) => if self.trader.is_some() {
                    ItemsPhase::AskCount
                } else {
                    panicked
                },
                Event::Ready(ReadyState::False) => ItemsPhase::Launching,
                Event::Ready(ReadyState::Starting) => ItemsPhase::Waiting,
                _ => ItemsPhase::CheckReady,
            },
            ItemsPhase::Launching => ItemsPhase::CheckReady,
            ItemsPhase::Waiting => ItemsPhase::CheckReady,
            ItemsPhase::AskCount => match e {
                Event::Count(Some(c)) => if *c > 0 {
                    ItemsPhase::Requesting
                } else {
                    ItemsPhase::Closing(Note::NoEscrowItems)
                },
                _ => ItemsPhase::Closing(Note::NoEscrowItems),
            },
            ItemsPhase::Requesting => match e {
                Event::Requested(Some(true)) => self.item_phase_at(0),
                Event::Requested(Some(false)) => ItemsPhase::Leaving(Note::PlayerDeclinedTrade),
                _ => panicked,
            },
            ItemsPhase::FetchItem { item } => if fetched {
                ItemsPhase::FindItem { item }
            } else {
                ItemsPhase::Leaving(Note::DownloadFailed)
            },
            ItemsPhase::FindStash { item } => if ran {
                ItemsPhase::ClickStash { item }
            } else {
                panicked
            },
            ItemsPhase::ClickStash { item } => ItemsPhase::RetryItem { item },
            ItemsPhase::LineAway { item, line } => ItemsPhase::LineClick { item, line },
            ItemsPhase::LineClick { item, line } => self.after_line(item, line),
            ItemsPhase::MoveToItem { item, line } => self.info_phase_at(item, line, 0),
            ItemsPhase::FetchInfo { item, line, info } => if fetched {
                ItemsPhase::MatchInfo { item, line, info }
            } else {
                ItemsPhase::Leaving(Note::PlayerDeclined)
            },
            ItemsPhase::MatchInfo { item, line, info } => match output_text(e) {
                Some(out) => if was_detected(out.as_str()) {
                    self.pairs.push((info, item));
                    ItemsPhase::PickInfo { item, line, info }
                } else {
                    self.after_info(item, line, info)
                },
                None => panicked,
            },
            ItemsPhase::PickInfo { item, line, info } => self.after_info(item, line, info),
            ItemsPhase::FindCheckbox => if ran {
                ItemsPhase::ClickCheckbox
            } else {
                panicked
            },
            ItemsPhase::ClickCheckbox => ItemsPhase::SecondPhase,
            ItemsPhase::SecondPhase => if saw {
                ItemsPhase::Inspect
            } else {
                ItemsPhase::Leaving(Note::TradeNotAccepted)
            },
            ItemsPhase::Inspect => if ran {
                ItemsPhase::InspectLines
            } else {
                panicked
            },
            ItemsPhase::InspectLines => {
                self.passed = all_passed(self.pairs.len());
                self.check_phase_at(0)
            },
            ItemsPhase::CheckFetch { pair } => if fetched {
                ItemsPhase::CheckFind { pair }
            } else {
                ItemsPhase::Leaving(Note::DownloadFailed)
            },
            ItemsPhase::CheckFind { pair } => match output_text(e) {
                Some(out) => {
                    self.findings = read_findings(out.as_str());
                    self.check_line_phase_at(pair, 0)
                },
                None => ItemsPhase::Leaving(Note::ItemNotFound),
            },
            ItemsPhase::CheckAway { pair, line } => ItemsPhase::CheckClick { pair, line },
            ItemsPhase::CheckClick { pair, line } => self.after_check_line(pair, line),
            ItemsPhase::CheckMove { pair, line } => self.check_info_phase_at(pair, line, 0),
            ItemsPhase::CheckFetchInfo { pair, line, info } => if fetched {
                ItemsPhase::CheckMatch { pair, line, info }
            } else {
                ItemsPhase::Leaving(Note::DownloadFailed)
            },
            ItemsPhase::CheckMatch { pair, line, info } => if ran {
                ItemsPhase::CheckMatchAway { pair, line, info }
            } else {
                self.passed.set(pair, false);
                self.after_check_info(pair, line, info)
            },
            ItemsPhase::CheckMatchAway { pair, line, info } => ItemsPhase::CheckMatchClick {
                pair,
                line,
                info,
            },
            ItemsPhase::CheckMatchClick { pair, line, info } => self.after_check_info(pair, line, info),
            ItemsPhase::AwaitAccept => if saw {
                ItemsPhase::FindConfirm
            } else {
                ItemsPhase::Leaving(Note::TradeNotAccepted)
            },
            ItemsPhase::FindConfirm => if ran {
                ItemsPhase::ConfirmLines
            } else {
                panicked
            },
            ItemsPhase::ConfirmLines => self.mark_from(0),
            ItemsPhase::Mark { pair } => self.after_mark(pair),
            ItemsPhase::Succeeding => ItemsPhase::Done(Outcome::Succeeded(Note::TradeSuccessful)),
            ItemsPhase::Leaving(n) => ItemsPhase::Closing(n),
            ItemsPhase::Closing(n) => ItemsPhase::Done(Outcome::Failed(n)),
            ItemsPhase::Done(o) => ItemsPhase::Done(o),
            ItemsPhase::FindItem { .. } | ItemsPhase::RetryItem { .. } => panicked,
        };
        self.phase = next;
    }

    /// The action that starts the current phase.
    fn entry(&self, e: &Event) -> (a: Action)
        requires
            items_inv(self.trader, self.model()),
            self.phase is InspectLines || self.phase is ConfirmLines ==> ran(*e),
        ensures
            items_entry(self.trader, self.in_game_id@, self.mode, self.model(), *e, a),
    {
        match self.phase {
            ItemsPhase::Start => Action::Pause(0),
            ItemsPhase::CheckReady => Action::CheckReady,
            ItemsPhase::Launching => Action::LaunchGame,
            ItemsPhase::Waiting => Action::Pause(2000),
            ItemsPhase::Done(o) => Action::Finish(o),
            ItemsPhase::Succeeding | ItemsPhase::Leaving(_) | ItemsPhase::Closing(_) => {
                Action::ReturnToLobby
            },
            ItemsPhase::Requesting => Action::SendTradeRequest(self.in_game_id.clone()),
            ItemsPhase::FindItem { .. } | ItemsPhase::RetryItem { .. } => Action::Detect(
                Probe::ItemInStorage,
            ),
            ItemsPhase::FindStash { .. } => Action::Detect(Probe::Stash),
            ItemsPhase::ClickStash { .. } | ItemsPhase::ClickCheckbox => Action::ClickDetected {
                smooth: true,
                offset_y: 0,
            },
            ItemsPhase::LineAway { .. } | ItemsPhase::CheckAway { .. }
            | ItemsPhase::CheckMatchAway { .. } => Action::MoveAway,
            ItemsPhase::LineClick { .. } | ItemsPhase::PickInfo { .. } | ItemsPhase::CheckClick { .. }
            | ItemsPhase::CheckMatchClick { .. } => Action::LeftClick,
            ItemsPhase::MoveToItem { line, .. } | ItemsPhase::CheckMove { line, .. } => match self.findings[line] {
                Finding::Found(r) => Action::MoveToRegion(r),
                _ => Action::MoveAway,
            },
            ItemsPhase::MatchInfo { .. } | ItemsPhase::CheckMatch { .. } => Action::Detect(Probe::InfoMatch),
            ItemsPhase::FindCheckbox | ItemsPhase::FindConfirm => Action::Detect(Probe::TradeCheckbox),
            ItemsPhase::SecondPhase => Action::Detect(Probe::SecondPhase),
            ItemsPhase::Inspect => Action::Detect(Probe::InspectItems),
            ItemsPhase::InspectLines => Action::ActOnLines {
                output: output_or_empty(e),
                style: LineStyle::Inspect { minimize: true },
            },
            ItemsPhase::CheckFind { .. } => Action::Detect(Probe::ItemInWindow),
            ItemsPhase::AwaitAccept => Action::Detect(Probe::TraderReady),
            ItemsPhase::ConfirmLines => Action::ActOnLines {
                output: output_or_empty(e),
                style: LineStyle::Confirm,
            },
            _ => match &self.trader {
                Some(t) => match self.phase {
                    ItemsPhase::AskCount => Action::Ask(
                        Store::EscrowCount {
                            channel: t.discord_channel_id.clone(),
                            discord: t.discord_id.clone(),
                        },
                    ),
                    ItemsPhase::FetchItem { item } => Action::Download {
                        url: t.item_images[item].clone(),
                        slot: ImageSlot::Item,
                    },
                    ItemsPhase::FetchInfo { info, .. } | ItemsPhase::CheckFetchInfo { info, .. } => {
                        Action::Download { url: t.info_images[info].clone(), slot: ImageSlot::Info }
                    },
                    ItemsPhase::CheckFetch { pair } => {
                        let (_, item) = self.pairs[pair];
                        Action::Download { url: t.item_images[item].clone(), slot: ImageSlot::Item }
                    },
                    ItemsPhase::Mark { pair } => {
                        let (info, item) = self.pairs[pair];
                        Action::Ask(
                            Store::SetItemStatus {
                                item_url: t.item_images[item].clone(),
                                info_url: t.info_images[info].clone(),
                                status: status_for(self.mode),
                            },
                        )
                    },
                    _ => Action::ReturnToLobby,
                },
                None => Action::ReturnToLobby,
            },
        }
    }

    /// Moves on by one step: takes what the host observed of the last action
    /// and returns the next action.
    pub fn step(&mut self, e: &Event) -> (a: Action)
        requires
            items_inv(old(self).trader, old(self).model()),
        ensures
            final(self).trader == old(self).trader,
            final(self).mode == old(self).mode,
            final(self).in_game_id == old(self).in_game_id,
            final(self).model() == items_next(old(self).trader, old(self).model(), *e),
            items_inv(final(self).trader, final(self).model()),
            items_entry(
                final(self).trader,
                final(self).in_game_id@,
                final(self).mode,
                final(self).model(),
                *e,
                a,
            ),
    {
        let ghost m = self.model();
        self.advance(e);
        let _ = self.findings.len();
        let _ = self.pairs.len();
        proof {
            lemma_items_inv(self.trader, m, *e);
            lemma_next_phase(self.trader, m, *e);
        }
        self.entry(e)
    }
}

/// A hand-over never puts more items into the trade window than a trade
/// holds, so it never records more than that many.
pub proof fn lemma_items_limit(tr: Option<Trader>, m: ItemsModel)
    requires
        items_inv(tr, m),
    ensures
        m.pairs.len() <= ITEM_LIMIT,
        m.phase is FetchItem || m.phase is FetchInfo || m.phase is MatchInfo ==> m.pairs.len()
            < ITEM_LIMIT,
{
}

/// A hand-over succeeds only where some item passed the check of the trade
/// window.
pub proof fn lemma_items_success_moves_items(tr: Option<Trader>, m: ItemsModel, e: Event)
    requires
        items_inv(tr, m),
        items_next(tr, m, e).findings.len() <= usize::MAX,
        items_next(tr, m, e).phase matches ItemsPhase::Done(Outcome::Succeeded(_)),
        !(m.phase is Done),
    ensures
        m.phase is Succeeding,
        any_passed(m.passed),
{
    lemma_next_phase(tr, m, e);
}

/// A hand-over records only a pair that it put into the trade window and
/// whose check passed.
pub proof fn lemma_items_records_window_items(tr: Option<Trader>, m: ItemsModel)
    requires
        items_inv(tr, m),
    ensures
        m.phase matches ItemsPhase::Mark { pair } ==> pair < m.pairs.len() && m.passed[pair as int],
{
}

/// A pair whose check fails is dropped, and no other pair changes.
pub proof fn lemma_items_check_drops_failed(tr: Option<Trader>, m: ItemsModel, e: Event)
    requires
        items_inv(tr, m),
        m.phase is CheckMatch,
        !(e is Panicked),
        !ran(e),
    ensures
        items_next(tr, m, e).passed == m.passed.update(m.phase->CheckMatch_pair as int, false),
        items_next(tr, m, e).pairs == m.pairs,
{
}

/// A hand-over ends only right after going back to the lobby.
pub proof fn lemma_items_ends_from_lobby(tr: Option<Trader>, m: ItemsModel, e: Event)
    requires
        items_inv(tr, m),
        items_next(tr, m, e).findings.len() <= usize::MAX,
        items_next(tr, m, e).pairs.len() <= usize::MAX,
    ensures
        items_next(tr, m, e).phase is Done && !(m.phase is Done) ==> m.phase is Closing
            || m.phase is Succeeding,
{
    lemma_next_phase(tr, m, e);
}

/// A return records the items it hands over as returned, and a claim as
/// traded: the two never record the same status.
pub proof fn lemma_items_status_by_mode(
    tr: Option<Trader>,
    in_game_id: Seq<char>,
    mode: Handover,
    m: ItemsModel,
    e: Event,
    a: Action,
)
    requires
        m.phase is Mark,
        items_entry(tr, in_game_id, mode, m, e, a),
    ensures
        a matches Action::Ask(Store::SetItemStatus { status, .. }) && status == match mode {
            Handover::Claim => ItemStatus::Traded,
            Handover::Return => ItemStatus::Returned,
        },
        mode_status(Handover::Claim) != mode_status(Handover::Return),
{
}

/// At the readiness check a hand-over launches the game where it is not
/// running, waits where it is starting, and goes on where it is ready.
pub proof fn lemma_items_readiness(
    tr: Option<Trader>,
    in_game_id: Seq<char>,
    mode: Handover,
    m: ItemsModel,
    e: Event,
    a: Action,
)
    requires
        m.phase is CheckReady,
    ensures
        e == Event::Ready(ReadyState::False) ==> items_next(tr, m, e).phase is Launching && (
        items_entry(tr, in_game_id, mode, items_next(tr, m, e), e, a) <==> a == Action::LaunchGame),
        e == Event::Ready(ReadyState::Starting) ==> items_next(tr, m, e).phase is Waiting && (
        items_entry(tr, in_game_id, mode, items_next(tr, m, e), e, a) <==> a == Action::Pause(2000)),
        e == Event::Ready(ReadyState::True) && tr is Some ==> items_next(tr, m, e).phase is AskCount,
{
}

} // verus!
