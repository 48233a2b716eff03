//! What the bot makes of the rows its database returns, and which columns it
//! writes. The queries themselves are run by the host.

use vstd::prelude::*;
use crate::flows::common::ItemStatus;
use crate::traders::{Trader, TradersContainer, text_eq};

verus! {

/// Why a database request gave no answer.
#[derive(PartialEq, Eq, Structural, Clone, Copy, Debug)]
pub enum DbError {
    /// The query matched no row (or not the row that was looked for).
    QueryReturnedNoRows,
}

/// Which of the two traders of a trade a user is.
#[derive(PartialEq, Eq, Structural, Clone, Copy, Debug)]
pub enum TraderSlot {
    First,
    Second,
}

/// The row of a channel's trade that the fee query reads: the ids of its
/// two traders and their paid flags.
#[derive(PartialEq, Eq, Structural, Clone, Copy, Debug)]
pub struct PaidRow {
    pub trader1_id: i64,
    pub trader2_id: i64,
    pub trader1_paid: bool,
    pub trader2_paid: bool,
}

/// The row of a channel's trade that the gold query reads: the ids of its
/// two traders and the gold each put in.
#[derive(PartialEq, Eq, Structural, Clone, Copy, Debug)]
pub struct GoldRow {
    pub trader1_id: i64,
    pub trader2_id: i64,
    pub trader1_gold: i32,
    pub trader2_gold: i32,
}

/// One row of the query over the ongoing trades: a trader, their gold and
/// fee, and one of their items where they have any.
pub struct TraderRow {
    pub discord_id: String,
    pub channel_id: String,
    pub gold: i32,
    pub has_paid_gold_fee: bool,
    pub item_image_url: Option<String>,
    pub info_image_url: Option<String>,
}

/// The item links and the info links of a user's items, from the rows
/// (item link, info link) that the database returned, in order.
pub fn get_links_for_user(rows: &Vec<(String, String)>) -> (r: (Vec<String>, Vec<String>))
    ensures
        r.0@.len() == rows@.len(),
        r.1@.len() == rows@.len(),
        forall|i: int| 0 <= i < rows@.len() ==> (#[trigger] r.0@[i])@ == rows@[i].0@ && r.1@[i]@ == rows@[i].1@,
{
    let mut items: Vec<String> = Vec::new();
    let mut infos: Vec<String> = Vec::new();
    let mut k: usize = 0;
    while k < rows.len()
        invariant
            k <= rows@.len(),
            items@.len() == k,
            infos@.len() == k,
            forall|i: int| 0 <= i < k ==> (#[trigger] items@[i])@ == rows@[i].0@ && infos@[i]@ == rows@[i].1@,
        decreases rows@.len() - k,
    {
        let ghost before = (items@, infos@);
        items.push(rows[k].0.clone());
        infos.push(rows[k].1.clone());
        assert forall|i: int| 0 <= i < k + 1 implies (#[trigger] items@[i])@ == rows@[i].0@
            && infos@[i]@ == rows@[i].1@ by {
            if i < k {
                assert(items@[i] == before.0[i]);
                assert(infos@[i] == before.1[i]);
            }
        }
        k = k + 1;
    }
    (items, infos)
}

/// Which side of a trade a user is: the side whose trader id is the user's.
/// `user` is the id of the user's trader row, where there is one, and `trade`
/// the ids of the two sides of the channel's trade, where there is one.
pub open spec fn slot_of(user: Option<i64>, trade: Option<(i64, i64)>) -> Option<TraderSlot> {
    match (user, trade) {
        (Some(id), Some((t1, t2))) => if id == t1 {
            Some(TraderSlot::First)
        } else if id == t2 {
            Some(TraderSlot::Second)
        } else {
            None
        },
        _ => None,
    }
}

/// The side of a trade that a user is, as computed.
fn find_slot(user: Option<i64>, trade: Option<(i64, i64)>) -> (r: Option<TraderSlot>)
    ensures
        r == slot_of(user, trade),
{
    match (user, trade) {
        (Some(id), Some((t1, t2))) => if id == t1 {
            Some(TraderSlot::First)
        } else if id == t2 {
            Some(TraderSlot::Second)
        } else {
            None
        },
        _ => None,
    }
}

/// The paid flag of a side of a trade.
pub open spec fn paid_of(row: PaidRow, slot: TraderSlot) -> bool {
    match slot {
        TraderSlot::First => row.trader1_paid,
        TraderSlot::Second => row.trader2_paid,
    }
}

/// Whether a user has paid the fee, as the fee query reads it: the flag of
/// the user's side of the channel's trade; false where there is no trade or
/// the user is neither side of it.
pub open spec fn paid_reading(user: Option<i64>, row: Option<PaidRow>) -> bool {
    match row {
        None => false,
        Some(p) => match slot_of(user, Some((p.trader1_id, p.trader2_id))) {
            Some(slot) => paid_of(p, slot),
            None => false,
        },
    }
}

/// Whether a user has paid the fee. `user` is the id of the user's trader
/// row, where there is one, and `row` the channel's trade, where there is
/// one.
pub fn has_paid_fee(user: Option<i64>, row: &Option<PaidRow>) -> (r: Result<bool, DbError>)
    ensures
        r == Ok::<bool, DbError>(paid_reading(user, *row)),
{
    match row {
        None => Ok(false),
        Some(p) => match find_slot(user, Some((p.trader1_id, p.trader2_id))) {
            Some(TraderSlot::First) => Ok(p.trader1_paid),
            Some(TraderSlot::Second) => Ok(p.trader2_paid),
            None => Ok(false),
        },
    }
}

/// The gold that a user put into the channel's trade: that of the user's
/// side. `user` is the id of the user's trader row, where there is one, and
/// `row` the channel's trade, where there is one. Without a trade, or for a
/// user of neither side, there is no answer.
pub fn get_gold_for_user(user: Option<i64>, row: &Option<GoldRow>) -> (r: Result<i32, DbError>)
    ensures
        match row {
            None => r == Err::<i32, DbError>(DbError::QueryReturnedNoRows),
            Some(g) => r == match slot_of(user, Some((g.trader1_id, g.trader2_id))) {
                Some(TraderSlot::First) => Ok::<i32, DbError>(g.trader1_gold),
                Some(TraderSlot::Second) => Ok::<i32, DbError>(g.trader2_gold),
                None => Err::<i32, DbError>(DbError::QueryReturnedNoRows),
            },
        },
{
    match row {
        None => Err(DbError::QueryReturnedNoRows),
        Some(g) => match find_slot(user, Some((g.trader1_id, g.trader2_id))) {
            Some(TraderSlot::First) => Ok(g.trader1_gold),
            Some(TraderSlot::Second) => Ok(g.trader2_gold),
            None => Err(DbError::QueryReturnedNoRows),
        },
    }
}

/// Which paid flag to set for a user: that of the side of the trade whose
/// id is the user's. `trader_id` is the user's id, where the user exists;
/// `trade` the ids of the two sides of the channel's trade, where there is
/// one.
pub fn set_gold_fee_status(trader_id: Option<i64>, trade: Option<(i64, i64)>) -> (r: Result<TraderSlot, DbError>)
    ensures
        r == match slot_of(trader_id, trade) {
            Some(slot) => Ok::<TraderSlot, DbError>(slot),
            None => Err::<TraderSlot, DbError>(DbError::QueryReturnedNoRows),
        },
{
    match find_slot(trader_id, trade) {
        Some(slot) => Ok(slot),
        None => Err(DbError::QueryReturnedNoRows),
    }
}

/// The side named by the role query's answer: `trader1` is the first side,
/// any other role the second; no answer (no trade, or a user of neither
/// side) names none.
pub open spec fn role_slot(role: Option<String>) -> Option<TraderSlot> {
    match role {
        None => None,
        Some(s) => Some(
            if s@ == "trader1"@ {
                TraderSlot::First
            } else {
                TraderSlot::Second
            },
        ),
    }
}

/// The side whose traded gold to add to, from the role query's answer; the
/// host then adds the amount to that side's column, as `gold_added` says.
pub fn add_gold_to_trader(role: &Option<String>) -> (r: Result<TraderSlot, DbError>)
    ensures
        r == match role_slot(*role) {
            Some(slot) => Ok::<TraderSlot, DbError>(slot),
            None => Err::<TraderSlot, DbError>(DbError::QueryReturnedNoRows),
        },
{
    match role {
        None => Err(DbError::QueryReturnedNoRows),
        Some(s) => Ok(
            if text_eq(s.as_str(), "trader1") {
                TraderSlot::First
            } else {
                TraderSlot::Second
            },
        ),
    }
}

/// Whether an item status update changed a row: an error where it changed
/// none.
pub fn set_item_status_by_urls(rows_affected: usize) -> (r: Result<(), DbError>)
    ensures
        r == if rows_affected == 0 {
            Err::<(), DbError>(DbError::QueryReturnedNoRows)
        } else {
            Ok::<(), DbError>(())
        },
{
    if rows_affected == 0 {
        Err(DbError::QueryReturnedNoRows)
    } else {
        Ok(())
    }
}

/// The text of an item status in the database.
pub open spec fn status_text(s: ItemStatus) -> Seq<char> {
    match s {
        ItemStatus::InEscrow => "in escrow"@,
        ItemStatus::Traded => "traded"@,
        ItemStatus::Returned => "returned"@,
    }
}

/// The text of an item status in the database.
pub fn item_status_text(s: ItemStatus) -> (r: String)
    ensures
        r@ == status_text(s),
{
    let lit = match s {
        ItemStatus::InEscrow => "in escrow",
        ItemStatus::Traded => "traded",
        ItemStatus::Returned => "returned",
    };
    lit.to_owned()
}

/// The name of a column of a side of the trade: the side's prefix, then
/// `suffix`.
pub open spec fn column_name(slot: TraderSlot, suffix: Seq<char>) -> Seq<char> {
    match slot {
        TraderSlot::First => "trader1_"@ + suffix,
        TraderSlot::Second => "trader2_"@ + suffix,
    }
}

/// The name of a column of a side of the trade, such as `trader1_paid`.
pub fn column_of(slot: TraderSlot, suffix: &str) -> (r: String)
    ensures
        r@ == column_name(slot, suffix@),
{
    let prefix = match slot {
        TraderSlot::First => "trader1_",
        TraderSlot::Second => "trader2_",
    };
    prefix.to_owned().concat(suffix)
}

/// What the bot gathers of one trader from the rows of the ongoing trades.
pub struct Group {
    pub discord_id: Seq<char>,
    pub channel_id: Seq<char>,
    pub items: Seq<Seq<char>>,
    pub infos: Seq<Seq<char>>,
    pub gold: i32,
    pub paid: bool,
}

/// The texts of a list of strings.
pub open spec fn texts(v: Seq<String>) -> Seq<Seq<char>> {
    v.map_values(|s: String| s@)
}

/// What a trader holds, as a group.
pub open spec fn group_of(t: Trader) -> Group {
    Group {
        discord_id: t.discord_id@,
        channel_id: t.discord_channel_id@,
        items: texts(t.item_images@),
        infos: texts(t.info_images@),
        gold: t.gold,
        paid: t.has_paid_gold_fee,
    }
}

/// The position of the first group from `i` on of the user `d` in channel
/// `c`; -1 where there is none.
pub open spec fn position_from(gs: Seq<Group>, d: Seq<char>, c: Seq<char>, i: int) -> int
    decreases gs.len() - i,
{
    if i < 0 || i >= gs.len() {
        -1
    } else if gs[i].discord_id == d && gs[i].channel_id == c {
        i
    } else {
        position_from(gs, d, c, i + 1)
    }
}

/// The groups after one more row: a user and channel seen for the first time
/// opens a group with the row's gold and fee; a row that holds both links
/// adds an item to its group.
pub open spec fn add_row(gs: Seq<Group>, r: TraderRow) -> Seq<Group> {
    let p = position_from(gs, r.discord_id@, r.channel_id@, 0);
    let both = r.item_image_url is Some && r.info_image_url is Some;
    if p < 0 {
        gs.push(
            Group {
                discord_id: r.discord_id@,
                channel_id: r.channel_id@,
                items: if both {
                    seq![r.item_image_url->0@]
                } else {
                    Seq::empty()
                },
                infos: if both {
                    seq![r.info_image_url->0@]
                } else {
                    Seq::empty()
                },
                gold: r.gold,
                paid: r.has_paid_gold_fee,
            },
        )
    } else if both {
        gs.update(
            p,
            Group {
                items: gs[p].items.push(r.item_image_url->0@),
                infos: gs[p].infos.push(r.info_image_url->0@),
                ..gs[p]
            },
        )
    } else {
        gs
    }
}

/// The traders of the rows of the ongoing trades, one per user and channel,
/// in the order they first appear.
pub open spec fn group_rows(rows: Seq<TraderRow>) -> Seq<Group>
    decreases rows.len(),
{
    if rows.len() == 0 {
        Seq::empty()
    } else {
        add_row(group_rows(rows.drop_last()), rows.last())
    }
}

/// The groups of a list of traders.
pub open spec fn groups(ts: Seq<Trader>) -> Seq<Group> {
    ts.map_values(|t: Trader| group_of(t))
}

/// The position of the first trader of the user `d` in channel `c`.
fn find_group(ts: &Vec<Trader>, d: &String, c: &String) -> (r: Option<usize>)
    ensures
        match r {
            Some(p) => position_from(groups(ts@), d@, c@, 0) == p && p < ts@.len(),
            None => position_from(groups(ts@), d@, c@, 0) == -1,
        },
{
    let ghost gs = groups(ts@);
    let mut k: usize = 0;
    while k < ts.len()
        invariant
            k <= ts@.len(),
            gs == groups(ts@),
            position_from(gs, d@, c@, 0) == position_from(gs, d@, c@, k as int),
        decreases ts@.len() - k,
    {
        assert(gs[k as int] == group_of(ts@[k as int]));
        if text_eq(ts[k].discord_id.as_str(), d.as_str()) && text_eq(
            ts[k].discord_channel_id.as_str(),
            c.as_str(),
        ) {
            return Some(k);
        }
        k = k + 1;
    }
    None
}

/// A list holding one text, or none.
fn one_or_none(s: &Option<String>, keep: bool) -> (r: Vec<String>)
    requires
        keep ==> s is Some,
    ensures
        texts(r@) == if keep {
            seq![s->0@]
        } else {
            Seq::<Seq<char>>::empty()
        },
{
    let mut r: Vec<String> = Vec::new();
    if keep {
        match s {
            Some(t) => r.push(t.clone()),
            None => {},
        }
    }
    assert(texts(r@) =~= if keep {
        seq![s->0@]
    } else {
        Seq::<Seq<char>>::empty()
    });
    r
}

/// Groups the rows of the ongoing trades into traders.
fn group_traders(rows: &Vec<TraderRow>) -> (ts: Vec<Trader>)
    ensures
        groups(ts@) == group_rows(rows@),
        forall|i: int| 0 <= i < ts@.len() ==> (#[trigger] ts@[i]).in_game_id@ == Seq::<char>::empty(),
{
    let mut ts: Vec<Trader> = Vec::new();
    let mut k: usize = 0;
    assert(rows@.take(0) =~= Seq::<TraderRow>::empty());
    assert(groups(ts@) =~= Seq::<Group>::empty());
    while k < rows.len()
        invariant
            k <= rows@.len(),
            groups(ts@) == group_rows(rows@.take(k as int)),
            forall|i: int| 0 <= i < ts@.len() ==> (#[trigger] ts@[i]).in_game_id@ == Seq::<char>::empty(),
        decreases rows@.len() - k,
    {
        let r = &rows[k];
        assert(rows@.take(k + 1).drop_last() =~= rows@.take(k as int));
        assert(rows@.take(k + 1).last() == rows@[k as int]);
        let ghost before = ts@;
        let both = r.item_image_url.is_some() && r.info_image_url.is_some();
        match find_group(&ts, &r.discord_id, &r.channel_id) {
            None => {
                let t = Trader {
                    in_game_id: String::new(),
                    discord_channel_id: r.channel_id.clone(),
                    discord_id: r.discord_id.clone(),
                    item_images: one_or_none(&r.item_image_url, both),
                    info_images: one_or_none(&r.info_image_url, both),
                    gold: r.gold,
                    has_paid_gold_fee: r.has_paid_gold_fee,
                };
                ts.push(t);
                assert(groups(ts@) =~= groups(before).push(group_of(t)));
            },
            Some(p) => {
                if both {
                    let mut t = ts[p].copy();
                    match (&r.item_image_url, &r.info_image_url) {
                        (Some(item), Some(info)) => {
                            let ghost (ii, ff) = (t.item_images@, t.info_images@);
                            t.item_images.push(item.clone());
                            t.info_images.push(info.clone());
                            assert(texts(t.item_images@) =~= texts(ii).push(item@));
                            assert(texts(t.info_images@) =~= texts(ff).push(info@));
                        },
                        _ => {},
                    }
                    ts.set(p, t);
                    assert(groups(ts@) =~= groups(before).update(p as int, group_of(t)));
                }
            },
        }
        k = k + 1;
    }
    assert(rows@.take(rows@.len() as int) =~= rows@);
    ts
}

/// Adds the traders of the ongoing trades, from the rows of their query: one
/// per user and channel, with no in-game name yet, the gold and fee of their
/// first row, and the links of each row that holds both, in order. The
/// traders are added in the order in which they first appear.
pub fn populate_traders_from_db(traders: &mut TradersContainer, rows: &Vec<TraderRow>)
    ensures
        final(traders)@.len() == old(traders)@.len() + group_rows(rows@).len(),
        forall|i: int| 0 <= i < old(traders)@.len() ==> (#[trigger] final(traders)@[i]) == old(traders)@[i],
        forall|n: int|
            0 <= n < group_rows(rows@).len() ==> group_of(#[trigger] final(traders)@[old(traders)@.len() + n])
                == group_rows(rows@)[n] && final(traders)@[old(traders)@.len() + n].in_game_id@
                == Seq::<char>::empty(),
{
    let ts = group_traders(rows);
    let ghost start = traders@;
    let ghost gs = group_rows(rows@);
    let mut k: usize = 0;
    while k < ts.len()
        invariant
            k <= ts@.len(),
            groups(ts@) == gs,
            forall|i: int| 0 <= i < ts@.len() ==> (#[trigger] ts@[i]).in_game_id@ == Seq::<char>::empty(),
            traders@.len() == start.len() + k,
            forall|i: int| 0 <= i < start.len() ==> (#[trigger] traders@[i]) == start[i],
            forall|n: int|
                0 <= n < k ==> group_of(#[trigger] traders@[start.len() + n]) == gs[n]
                    && traders@[start.len() + n].in_game_id@ == Seq::<char>::empty(),
        decreases ts@.len() - k,
    {
        let t = ts[k].copy();
        assert(gs[k as int] == group_of(ts@[k as int]));
        assert(group_of(t) == group_of(ts@[k as int]));
        let ghost before = traders@;
        traders.append(t);
        assert forall|n: int| 0 <= n < k + 1 implies group_of(#[trigger] traders@[start.len() + n]) == gs[n]
            && traders@[start.len() + n].in_game_id@ == Seq::<char>::empty() by {
            if n < k {
                assert(traders@[start.len() + n] == before[start.len() + n]);
            }
        }
        k = k + 1;
    }
}

/// Whether two groups are of the same user in the same channel.
pub open spec fn same_key(a: Group, b: Group) -> bool {
    a.discord_id == b.discord_id && a.channel_id == b.channel_id
}

/// Whether no two groups are of the same user in the same channel.
pub open spec fn keys_distinct(gs: Seq<Group>) -> bool {
    forall|i: int, j: int| 0 <= i < j < gs.len() ==> !same_key(#[trigger] gs[i], #[trigger] gs[j])
}

proof fn lemma_position_none(gs: Seq<Group>, d: Seq<char>, c: Seq<char>, i: int)
    requires
        0 <= i,
        position_from(gs, d, c, i) == -1,
    ensures
        forall|k: int| i <= k < gs.len() ==> !((#[trigger] gs[k]).discord_id == d && gs[k].channel_id == c),
    decreases gs.len() - i,
{
    if i < gs.len() {
        lemma_position_none(gs, d, c, i + 1);
    }
}

proof fn lemma_position_found(gs: Seq<Group>, d: Seq<char>, c: Seq<char>, i: int)
    requires
        0 <= i,
    ensures
        position_from(gs, d, c, i) == -1 || (i <= position_from(gs, d, c, i) < gs.len() && gs[position_from(
            gs,
            d,
            c,
            i,
        )].discord_id == d && gs[position_from(gs, d, c, i)].channel_id == c),
    decreases gs.len() - i,
{
    if i < gs.len() {
        lemma_position_found(gs, d, c, i + 1);
    }
}

/// The traders read from the rows of the ongoing trades are of distinct
/// users or channels: no user has two traders in one channel.
pub proof fn lemma_groups_distinct(rows: Seq<TraderRow>)
    ensures
        keys_distinct(group_rows(rows)),
    decreases rows.len(),
{
    if rows.len() > 0 {
        let gs = group_rows(rows.drop_last());
        lemma_groups_distinct(rows.drop_last());
        let r = rows.last();
        let p = position_from(gs, r.discord_id@, r.channel_id@, 0);
        lemma_position_found(gs, r.discord_id@, r.channel_id@, 0);
        let next = group_rows(rows);
        assert(next == add_row(gs, r));
        if p < 0 {
            lemma_position_none(gs, r.discord_id@, r.channel_id@, 0);
            assert forall|i: int, j: int| 0 <= i < j < next.len() implies !same_key(
                #[trigger] next[i],
                #[trigger] next[j],
            ) by {
                if j < gs.len() {
                    assert(next[i] == gs[i] && next[j] == gs[j]);
                } else {
                    assert(next[i] == gs[i]);
                }
            }
        } else {
            assert forall|i: int, j: int| 0 <= i < j < next.len() implies !same_key(
                #[trigger] next[i],
                #[trigger] next[j],
            ) by {
                assert(same_key(next[i], gs[i]));
                assert(same_key(next[j], gs[j]));
            }
        }
    }
}

/// The paid flags of a trade after the fee update for `slot`'s side: the
/// column `column_name(slot, "paid")` holds `paid`, the other is unchanged.
pub open spec fn fee_written(row: PaidRow, slot: TraderSlot, paid: bool) -> PaidRow {
    match slot {
        TraderSlot::First => PaidRow { trader1_paid: paid, ..row },
        TraderSlot::Second => PaidRow { trader2_paid: paid, ..row },
    }
}

/// The other side of a trade.
pub open spec fn other_side(slot: TraderSlot) -> TraderSlot {
    match slot {
        TraderSlot::First => TraderSlot::Second,
        TraderSlot::Second => TraderSlot::First,
    }
}

/// A fee status that was written for a user reads back: where the fee
/// update finds the user's side of the trade, the fee query then gives the
/// flag written, and the other side's flag is unchanged.
pub proof fn lemma_fee_read_after_write(user: Option<i64>, row: PaidRow, paid: bool)
    ensures
        slot_of(user, Some((row.trader1_id, row.trader2_id))) matches Some(slot) ==> {
            &&& paid_reading(user, Some(fee_written(row, slot, paid))) == paid
            &&& paid_of(fee_written(row, slot, paid), other_side(slot)) == paid_of(row, other_side(slot))
        },
{
}

/// The traded gold of the two sides of a trade after adding `amount` to the
/// column `column_name(slot, "gold_traded")` of `slot`'s side.
pub open spec fn gold_added(gold: (int, int), slot: TraderSlot, amount: int) -> (int, int) {
    match slot {
        TraderSlot::First => (gold.0 + amount, gold.1),
        TraderSlot::Second => (gold.0, gold.1 + amount),
    }
}

/// Two additions of traded gold for the same user and channel come to one
/// addition of their sum: both go to the side that the role query names.
pub proof fn lemma_gold_added_twice(role: Option<String>, gold: (int, int), a: int, b: int)
    ensures
        role_slot(role) matches Some(slot) ==> gold_added(gold_added(gold, slot, a), slot, b)
            == gold_added(gold, slot, a + b),
{
}

} // verus!
