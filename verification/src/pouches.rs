//! Paying gold back in pouches of 50 and of 35 coins, taken from the
//! inventory before the stash.

use vstd::prelude::*;
use crate::detect::{Finding, Region, pouch_findings, read_pouch_findings};
use crate::pointer::{aim_at_region, halts_at, in_i32, near_center};
use crate::text::{chars_of, reads_as};

verus! {

/// `max(n, 0)`: how many pouches a count lets the bot take.
pub open spec fn avail(n: int) -> int {
    if n > 0 {
        n
    } else {
        0
    }
}

/// The smaller of two integers.
pub open spec fn min_int(a: int, b: int) -> int {
    if a <= b {
        a
    } else {
        b
    }
}

/// How many 50-pouches the bot takes from a place that holds `count` of
/// them while it still owes 50 or more: one per full 50 owed, as many as
/// the place holds.
pub open spec fn fifties(owe: int, count: int) -> int {
    if owe >= 50 {
        min_int(avail(count), owe / 50)
    } else {
        0
    }
}

/// Whether a remaining debt is within 20 coins of nothing.
pub open spec fn close_enough(owe: int) -> bool {
    -20 <= owe <= 20
}

/// The least `j` in `from..=last` such that paying `j` more 50-pouches
/// leaves the debt within 20 of nothing; 0 where there is none.
pub open spec fn first_close(owe: int, from: int, last: int) -> int
    decreases last - from + 1,
{
    if from > last || from < 1 {
        0
    } else if close_enough(owe - 50 * from) {
        from
    } else {
        first_close(owe, from + 1, last)
    }
}

/// How many 35-pouches the bot takes from a place that holds `count` of
/// them: none while the debt is within 20 of nothing; while it is more than
/// 20, until it is no longer; while it is less than -20, every one.
pub open spec fn thirty_fives(owe: int, count: int) -> int {
    if owe < -20 {
        avail(count)
    } else if owe <= 20 {
        0
    } else {
        min_int(avail(count), (owe + 14) / 35)
    }
}

/// The steps of the pouch plan: 50-pouches from the inventory, then from
/// the stash, then extra 50-pouches where one brings the debt within 20 of
/// nothing (inventory first), then 35-pouches from the inventory and the
/// stash.
pub struct PouchSteps {
    pub inv50: int,
    pub stash50: int,
    pub after50: int,
    pub room: int,
    pub extra: int,
    pub extra_inv: int,
    pub after_extra: int,
    pub inv35: int,
    pub after_inv35: int,
    pub stash35: int,
    pub left: int,
}

/// The steps of the pouch plan for a debt `owe` and the pouches held.
pub open spec fn pouch_steps(owe: int, i50: int, s50: int, i35: int, s35: int) -> PouchSteps {
    let k1 = fifties(owe, i50);
    let o1 = owe - 50 * k1;
    let k2 = fifties(o1, s50);
    let o2 = o1 - 50 * k2;
    let room = i50 + s50 - k1 - k2;
    let j = first_close(o2, 1, room);
    let e1 = min_int(j, avail(i50 - k1));
    let o3 = o2 - 50 * j;
    let m3 = thirty_fives(o3, i35);
    let o4 = o3 - 35 * m3;
    let m4 = thirty_fives(o4, s35);
    PouchSteps {
        inv50: k1,
        stash50: k2,
        after50: o2,
        room,
        extra: j,
        extra_inv: e1,
        after_extra: o3,
        inv35: m3,
        after_inv35: o4,
        stash35: m4,
        left: o4 - 35 * m4,
    }
}

/// The pouches to pay `owe` with: 50s from the inventory, 50s from the
/// stash, 35s from the inventory, 35s from the stash.
pub open spec fn pouch_plan(owe: int, i50: int, s50: int, i35: int, s35: int) -> (
    int,
    int,
    int,
    int,
) {
    let p = pouch_steps(owe, i50, s50, i35, s35);
    (p.inv50 + p.extra_inv, p.stash50 + p.extra - p.extra_inv, p.inv35, p.stash35)
}

/// Whether the plan can be worked out in `i32` without overflow: the sum of
/// the 50-pouch counts fits, the debt stays above `i32::MIN` while the bot
/// tries extra 50-pouches, and above or at it afterwards.
pub open spec fn pouch_arith_ok(owe: int, i50: int, s50: int, i35: int, s35: int) -> bool {
    let p = pouch_steps(owe, i50, s50, i35, s35);
    let tries = if p.extra > 0 {
        p.extra
    } else {
        avail(p.room)
    };
    &&& in_i32(i50 + s50)
    &&& tries > 0 ==> p.after50 - 50 * tries > i32::MIN
    &&& p.left >= i32::MIN
}


proof fn lemma_first_close_range(owe: int, from: int, last: int)
    ensures
        first_close(owe, from, last) == 0 || (from <= first_close(owe, from, last) <= last
            && close_enough(owe - 50 * first_close(owe, from, last))),
    decreases last - from + 1,
{
    if from > last || from < 1 {
    } else if close_enough(owe - 50 * from) {
    } else {
        lemma_first_close_range(owe, from + 1, last);
    }
}

/// What holds of every pouch plan: no place gives more pouches than it
/// holds; the stash gives a pouch of a kind only once the inventory has
/// given all of that kind; for a debt of -20 or more, where not every
/// 35-pouch is used the debt left is within 20 of nothing; the plan never
/// pays more than 20 over a debt of -20 or more; and every pouch is needed:
/// without the last 50-pouch more than 20 would still be owed, and likewise
/// without the last 35-pouch.
pub open spec fn pouch_plan_laws(
    owe: int,
    i50: int,
    s50: int,
    i35: int,
    s35: int,
    r: (int, int, int, int),
) -> bool {
    &&& 0 <= r.0 <= avail(i50)
    &&& 0 <= r.1 <= avail(s50)
    &&& 0 <= r.2 <= avail(i35)
    &&& 0 <= r.3 <= avail(s35)
    &&& r.1 > 0 ==> r.0 == avail(i50)
    &&& r.3 > 0 ==> r.2 == avail(i35)
    &&& (owe >= -20 && r.2 + r.3 < avail(i35) + avail(s35)) ==> close_enough(
        owe - 50 * (r.0 + r.1) - 35 * (r.2 + r.3),
    )
    &&& owe >= -20 ==> 50 * (r.0 + r.1) + 35 * (r.2 + r.3) <= owe + 20
    &&& r.0 + r.1 > 0 ==> owe - 50 * (r.0 + r.1 - 1) > 20
    &&& (owe >= -20 && r.2 + r.3 > 0) ==> owe - 50 * (r.0 + r.1) - 35 * (r.2 + r.3 - 1) > 20
}

proof fn lemma_thirty_fives_bounds(owe: int, count: int)
    requires
        owe >= -20,
    ensures
        owe - 35 * thirty_fives(owe, count) >= -20,
        thirty_fives(owe, count) > 0 ==> owe - 35 * (thirty_fives(owe, count) - 1) > 20,
{
    if owe > 20 {
        let q = (owe + 14) / 35;
        assert(35 * q <= owe + 14) by (nonlinear_arith)
            requires
                q == (owe + 14) / 35,
        ;
        let m = thirty_fives(owe, count);
        assert(m <= q);
    }
}

/// The pouch plan obeys its laws for every debt and every count.
pub proof fn lemma_pouch_plan_laws(owe: int, i50: int, s50: int, i35: int, s35: int)
    ensures
        pouch_plan_laws(owe, i50, s50, i35, s35, pouch_plan(owe, i50, s50, i35, s35)),
{
    let p = pouch_steps(owe, i50, s50, i35, s35);
    lemma_first_close_range(p.after50, 1, p.room);
    let o1 = owe - 50 * p.inv50;
    assert(p.inv50 > 0 ==> o1 >= 0);
    assert(p.inv50 < avail(i50) ==> o1 < 50);
    assert(p.stash50 > 0 ==> p.after50 >= 0);
    assert(p.stash50 < avail(s50) ==> p.after50 < 50);
    assert(owe >= -20 ==> p.after50 >= -20);
    assert(p.after50 >= 0 && p.room >= 1 ==> p.after50 < 50);
    assert(p.inv50 > 0 ==> owe - 50 * (p.inv50 - 1) >= 50);
    assert(p.stash50 > 0 ==> o1 - 50 * (p.stash50 - 1) >= 50);
    if p.extra > 0 {
        assert(p.extra == 1) by {
            if p.extra > 1 {
                assert(!close_enough(p.after50 - 50));
            }
        }
        assert(p.after50 > 20);
    }
    if owe >= -20 {
        assert(p.after_extra >= -20);
        lemma_thirty_fives_bounds(p.after_extra, i35);
        lemma_thirty_fives_bounds(p.after_inv35, s35);
    }
}

/// Pays 50-pouches from one place while 50 or more is owed.
fn take_fifties(owe: i32, count: i32) -> (r: (i32, i32))
    ensures
        r.0 == fifties(owe as int, count as int),
        r.1 == owe - 50 * r.0,
        r.0 > 0 ==> r.1 >= 0,
{
    let mut owe = owe;
    let ghost owe0 = owe as int;
    let mut used: i32 = 0;
    while owe >= 50 && used < count
        invariant
            owe == owe0 - 50 * used,
            0 <= used <= avail(count as int),
            used > 0 ==> owe >= 0,
        decreases count - used,
    {
        owe = owe - 50;
        used = used + 1;
    }
    (used, owe)
}

/// Pays 35-pouches from one place while the debt is not within 20 of
/// nothing; `None` where the debt would drop below `i32::MIN`.
fn take_thirty_fives(owe: i32, count: i32) -> (r: Option<(i32, i32)>)
    ensures
        match r {
            Some((used, left)) => used == thirty_fives(owe as int, count as int) && left == owe - 35
                * used,
            None => owe - 35 * thirty_fives(owe as int, count as int) < i32::MIN,
        },
{
    let mut rest = owe;
    let ghost owe0 = owe as int;
    let mut used: i32 = 0;
    while (rest > 20 || rest < -20) && used < count
        invariant
            owe0 == owe as int,
            rest == owe0 - 35 * used,
            0 <= used <= avail(count as int),
            used <= thirty_fives(owe0, count as int),
            owe0 < -20 ==> rest < -20,
            owe0 >= -20 && used > 0 ==> owe0 - 35 * (used - 1) > 20,
        decreases count - used,
    {
        if rest < i32::MIN + 35 {
            assert(used + 1 <= thirty_fives(owe0, count as int));
            assert(owe0 - 35 * thirty_fives(owe0, count as int) < i32::MIN);
            return None;
        }
        rest = rest - 35;
        used = used + 1;
    }
    Some((used, rest))
}

/// Works out how many pouches to pay `owe` with, given how many 50- and
/// 35-pouches the inventory and the stash hold. It takes 50-pouches from the
/// inventory, then from the stash, while 50 or more is owed; then, where one
/// or more further 50-pouches (inventory first) would bring the debt within
/// 20 of nothing, the fewest that do; then 35-pouches from the inventory and
/// the stash until the debt is within 20 of nothing. Returns the counts used:
/// 50s from the inventory, 50s from the stash, 35s from the inventory, 35s
/// from the stash; `None` where the `i32` arithmetic of this computation
/// overflows (the bot gives up there).
pub fn calculate_pouches(
    owe: i32,
    inventory_50: i32,
    stash_50: i32,
    inventory_35: i32,
    stash_35: i32,
) -> (r: Option<(i32, i32, i32, i32)>)
    ensures
        r is Some <==> pouch_arith_ok(
            owe as int,
            inventory_50 as int,
            stash_50 as int,
            inventory_35 as int,
            stash_35 as int,
        ),
        r matches Some(v) ==> (v.0 as int, v.1 as int, v.2 as int, v.3 as int) == pouch_plan(
            owe as int,
            inventory_50 as int,
            stash_50 as int,
            inventory_35 as int,
            stash_35 as int,
        ),
        r matches Some(v) ==> pouch_plan_laws(
            owe as int,
            inventory_50 as int,
            stash_50 as int,
            inventory_35 as int,
            stash_35 as int,
            (v.0 as int, v.1 as int, v.2 as int, v.3 as int),
        ),
{
    proof {
        lemma_pouch_plan_laws(
            owe as int,
            inventory_50 as int,
            stash_50 as int,
            inventory_35 as int,
            stash_35 as int,
        );
    }
    let ghost p = pouch_steps(
        owe as int,
        inventory_50 as int,
        stash_50 as int,
        inventory_35 as int,
        stash_35 as int,
    );
    let ghost owe_in = owe as int;
    let (k1, o1) = take_fifties(owe, inventory_50);
    let (k2, o2) = take_fifties(o1, stash_50);
    if (inventory_50 as i64) + (stash_50 as i64) > i32::MAX as i64 || (inventory_50 as i64) + (
    stash_50 as i64) < i32::MIN as i64 {
        return None;
    }
    let mut used_inventory_50 = k1;
    let mut used_stash_50 = k2;
    let mut rest = o2;
    let mut best_owe = o2;
    let mut best_inventory_50 = k1;
    let mut best_stash_50 = k2;
    let ghost room = p.room;
    let ghost mut t: int = 0;
    let mut searching = true;
    proof {
        lemma_first_close_range(o2 as int, 1, room);
    }
    while searching && used_inventory_50 + used_stash_50 < inventory_50 + stash_50
        invariant
            owe_in == owe as int,
            50 * (k1 + k2) <= i32::MAX,
            p == pouch_steps(
                owe_in,
                inventory_50 as int,
                stash_50 as int,
                inventory_35 as int,
                stash_35 as int,
            ),
            k1 == p.inv50,
            k2 == p.stash50,
            o2 == p.after50,
            room == p.room,
            room == inventory_50 + stash_50 - k1 - k2,
            in_i32(inventory_50 + stash_50),
            p.extra == first_close(o2 as int, 1, room),
            p.extra == 0 || (1 <= p.extra <= room),
            k1 <= avail(inventory_50 as int),
            0 <= k1,
            0 <= k2,
            0 <= t,
            searching ==> t <= avail(room),
            searching ==> used_inventory_50 + used_stash_50 == k1 + k2 + t,
            searching ==> used_inventory_50 == k1 + min_int(t, avail(inventory_50 - k1)),
            searching ==> rest == o2 - 50 * t,
            searching ==> first_close(o2 as int, 1, room) == first_close(o2 as int, t + 1, room),
            searching ==> (p.extra == 0 || t < p.extra),
            searching ==> best_owe == o2 && best_inventory_50 == k1 && best_stash_50 == k2,
            searching && t > 0 ==> rest > i32::MIN,
            !searching ==> p.extra > 0 && best_owe == o2 - 50 * p.extra && best_inventory_50 == k1
                + p.extra_inv && best_stash_50 == k2 + p.extra - p.extra_inv,
        decreases inventory_50 + stash_50 - (used_inventory_50 + used_stash_50),
    {
        proof {
            t = t + 1;
            lemma_first_close_range(o2 as int, t, room);
        }
        if rest <= i32::MIN + 50 {
            assert(t <= avail(room));
            assert(p.extra == 0 || t <= p.extra);
            assert(o2 - 50 * t <= i32::MIN);
            assert(!pouch_arith_ok(
                owe_in,
                inventory_50 as int,
                stash_50 as int,
                inventory_35 as int,
                stash_35 as int,
            ));
            return None;
        }
        rest = rest - 50;
        if used_inventory_50 < inventory_50 {
            used_inventory_50 = used_inventory_50 + 1;
        } else {
            used_stash_50 = used_stash_50 + 1;
        }
        let current_difference = if rest < 0 {
            -rest
        } else {
            rest
        };
        if current_difference <= 20 {
            best_owe = rest;
            best_inventory_50 = used_inventory_50;
            best_stash_50 = used_stash_50;
            searching = false;
        }
    }
    match take_thirty_fives(best_owe, inventory_35) {
        None => None,
        Some((m3, o4)) => match take_thirty_fives(o4, stash_35) {
            None => None,
            Some((m4, _o5)) => Some((best_inventory_50, best_stash_50, m3, m4)),
        },
    }
}


/// The regions among a run of findings, in order.
pub open spec fn found_regions(fs: Seq<Finding>) -> Seq<Region>
    decreases fs.len(),
{
    if fs.len() == 0 {
        Seq::empty()
    } else {
        let prev = found_regions(fs.drop_last());
        match fs.last() {
            Finding::Found(r) => prev.push(r),
            _ => prev,
        }
    }
}

/// Whether the bot goes on to line `j` of a pouch list: it still has to
/// take pouches from this list and the trade window still has room.
pub open spec fn goes_on(fs: Seq<Finding>, j: int, pouch_count: i32, clicked: i32, max_clicked: i32) -> bool {
    &&& pouch_count >= 1
    &&& (j as i32) < pouch_count
    &&& clicked + found_regions(fs.take(j)).len() < max_clicked
}

/// Where the bot stops going through a pouch list, from line `j` on: at
/// the first line where it no longer goes on (`true`) or gives up (`false`).
pub open spec fn pouch_stop(fs: Seq<Finding>, j: int, pouch_count: i32, clicked: i32, max_clicked: i32) -> (int, bool)
    decreases fs.len() - j,
{
    if j < 0 || j >= fs.len() || !goes_on(fs, j, pouch_count, clicked, max_clicked) {
        (j, true)
    } else if halts_at(fs[j]) {
        (j, false)
    } else {
        pouch_stop(fs, j + 1, pouch_count, clicked, max_clicked)
    }
}

/// How many pouches the trade window holds after the bot went through a
/// pouch list, and whether it got through without giving up.
pub open spec fn pouch_result(coords: Seq<char>, pouch_count: i32, clicked: i32, max_clicked: i32) -> (int, bool) {
    if coords == "Could not detect"@ {
        (clicked as int, true)
    } else {
        let fs = pouch_findings(coords);
        let stop = pouch_stop(fs, 0, pouch_count, clicked, max_clicked);
        (clicked + found_regions(fs.take(stop.0)).len(), stop.1)
    }
}

/// Whether `targets` are the points the bot clicks in a pouch list: the
/// salted centres of the regions of the lines it goes through, in order.
pub open spec fn pouch_targets(
    coords: Seq<char>,
    pouch_count: i32,
    clicked: i32,
    max_clicked: i32,
    targets: Seq<(i32, i32)>,
) -> bool {
    if coords == "Could not detect"@ {
        targets.len() == 0
    } else {
        let fs = pouch_findings(coords);
        let rs = found_regions(fs.take(pouch_stop(fs, 0, pouch_count, clicked, max_clicked).0));
        &&& targets.len() == rs.len()
        &&& forall|n: int| 0 <= n < rs.len() ==> near_center(#[trigger] rs[n], targets[n].0, targets[n].1)
    }
}

proof fn lemma_found_regions_step(fs: Seq<Finding>, j: int)
    requires
        0 <= j < fs.len(),
    ensures
        found_regions(fs.take(j + 1)).len() <= found_regions(fs.take(j)).len() + 1,
        found_regions(fs.take(j)).len() <= found_regions(fs.take(j + 1)).len(),
{
    assert(fs.take(j + 1).drop_last() =~= fs.take(j));
}

proof fn lemma_pouch_stop_bounds(fs: Seq<Finding>, j: int, pouch_count: i32, clicked: i32, max_clicked: i32)
    requires
        0 <= j <= fs.len(),
        clicked + found_regions(fs.take(j)).len() <= max_clicked,
    ensures
        j <= pouch_stop(fs, j, pouch_count, clicked, max_clicked).0 <= fs.len(),
        clicked + found_regions(fs.take(pouch_stop(fs, j, pouch_count, clicked, max_clicked).0)).len()
            <= max_clicked,
        found_regions(fs.take(j)).len() <= found_regions(
            fs.take(pouch_stop(fs, j, pouch_count, clicked, max_clicked).0),
        ).len(),
    decreases fs.len() - j,
{
    if j >= fs.len() || !goes_on(fs, j, pouch_count, clicked, max_clicked) {
    } else if halts_at(fs[j]) {
    } else {
        lemma_found_regions_step(fs, j);
        lemma_pouch_stop_bounds(fs, j + 1, pouch_count, clicked, max_clicked);
    }
}

/// Going through a pouch list never takes the trade window past its room:
/// where it held `max_clicked` pouches or fewer, it still does, and it holds
/// no fewer than before.
pub proof fn lemma_pouch_result_bounds(coords: Seq<char>, pouch_count: i32, clicked: i32, max_clicked: i32)
    requires
        clicked <= max_clicked,
    ensures
        clicked <= pouch_result(coords, pouch_count, clicked, max_clicked).0 <= max_clicked,
{
    if coords != "Could not detect"@ {
        let fs = pouch_findings(coords);
        assert(fs.take(0) =~= Seq::<Finding>::empty());
        lemma_pouch_stop_bounds(fs, 0, pouch_count, clicked, max_clicked);
    }
}

/// Which pouches the bot clicks in one list, and where.
pub struct PouchClicks {
    /// The salted centres of the pouches to click, in order.
    pub targets: Vec<(i32, i32)>,
    /// The number of pouches in the trade window afterwards.
    pub clicked: i32,
    /// How many lines of the list were gone through.
    pub lines_done: usize,
    /// False where the bot gave up at a line.
    pub complete: bool,
}

/// Which pouches of a detector's list to click: none where the list reads
/// `Could not detect`; else the list's lines from the first on, while
/// pouches are still to be taken from it (`pouch_count` counts them, by
/// line) and the trade window holds fewer than `max_clicked`; each line with
/// a region gives one click at its salted centre.
pub fn click_pouches(coords: &str, pouch_count: i32, clicked: i32, max_clicked: i32) -> (r:
    PouchClicks)
    ensures
        coords@ == "Could not detect"@ ==> r.targets@.len() == 0 && r.clicked == clicked
            && r.complete,
        coords@ != "Could not detect"@ ==> {
            let fs = pouch_findings(coords@);
            &&& r.lines_done <= fs.len()
            &&& forall|j: int| 0 <= j < r.lines_done ==> goes_on(fs, j, pouch_count, clicked, max_clicked)
            &&& forall|j: int| 0 <= j < r.lines_done ==> !(#[trigger] fs[j] is Malformed)
            &&& r.targets@.len() == found_regions(fs.take(r.lines_done as int)).len()
            &&& forall|n: int|
                0 <= n < r.targets@.len() ==> near_center(
                    #[trigger] found_regions(fs.take(r.lines_done as int))[n],
                    r.targets@[n].0,
                    r.targets@[n].1,
                )
            &&& r.clicked == clicked + r.targets@.len()
            &&& r.complete ==> (r.lines_done == fs.len() || !goes_on(fs, r.lines_done as int, pouch_count, clicked, max_clicked))
            &&& !r.complete ==> r.lines_done < fs.len() && goes_on(fs, r.lines_done as int, pouch_count, clicked, max_clicked) && halts_at(fs[r.lines_done as int])
        },
        clicked <= max_clicked ==> r.clicked <= max_clicked,
        r.targets@.len() <= r.lines_done,
        (r.clicked as int, r.complete) == pouch_result(coords@, pouch_count, clicked, max_clicked),
        pouch_targets(coords@, pouch_count, clicked, max_clicked, r.targets@),
{
    let text = chars_of(coords);
    if reads_as(&text, "Could not detect") {
        return PouchClicks { targets: Vec::new(), clicked, lines_done: 0, complete: true };
    }
    let fs = read_pouch_findings(&text);
    let mut targets: Vec<(i32, i32)> = Vec::new();
    let mut now = clicked;
    let mut i: usize = 0;
    assert(fs@.take(0) =~= Seq::<Finding>::empty());
    while i < fs.len()
        invariant
            fs@ == pouch_findings(coords@),
            coords@ != "Could not detect"@,
            i <= fs@.len(),
            forall|j: int| 0 <= j < i ==> goes_on(fs@, j, pouch_count, clicked, max_clicked),
            forall|j: int| 0 <= j < i ==> !(#[trigger] fs@[j] is Malformed),
            targets@.len() == found_regions(fs@.take(i as int)).len(),
            forall|n: int|
                0 <= n < targets@.len() ==> near_center(
                    #[trigger] found_regions(fs@.take(i as int))[n],
                    targets@[n].0,
                    targets@[n].1,
                ),
            now == clicked + targets@.len(),
            clicked <= max_clicked ==> now <= max_clicked,
            targets@.len() <= i,
            pouch_stop(fs@, 0, pouch_count, clicked, max_clicked) == pouch_stop(
                fs@,
                i as int,
                pouch_count,
                clicked,
                max_clicked,
            ),
        ensures
            i == fs@.len() || !goes_on(fs@, i as int, pouch_count, clicked, max_clicked),
            forall|j: int| 0 <= j < i ==> goes_on(fs@, j, pouch_count, clicked, max_clicked),
            forall|j: int| 0 <= j < i ==> !(#[trigger] fs@[j] is Malformed),
            i <= fs@.len(),
            targets@.len() == found_regions(fs@.take(i as int)).len(),
            forall|n: int|
                0 <= n < targets@.len() ==> near_center(
                    #[trigger] found_regions(fs@.take(i as int))[n],
                    targets@[n].0,
                    targets@[n].1,
                ),
            now == clicked + targets@.len(),
            clicked <= max_clicked ==> now <= max_clicked,
            targets@.len() <= i,
            pouch_stop(fs@, 0, pouch_count, clicked, max_clicked) == pouch_stop(
                fs@,
                i as int,
                pouch_count,
                clicked,
                max_clicked,
            ),
        decreases fs@.len() - i,
    {
        if pouch_count < 1 {
            break;
        }
        let line_no = #[verifier::truncate] (i as i32);
        if line_no >= pouch_count {
            break;
        }
        if now >= max_clicked {
            break;
        }
        assert(fs@.take(i + 1).drop_last() =~= fs@.take(i as int));
        match fs[i] {
            Finding::Found(region) => {
                match aim_at_region(region) {
                    Some(p) => {
                        let ghost before = targets@;
                        targets.push(p);
                        now = now + 1;
                        assert(found_regions(fs@.take(i + 1)) == found_regions(fs@.take(i as int)).push(region));
                        assert forall|n: int|
                            0 <= n < targets@.len() implies near_center(
                            #[trigger] found_regions(fs@.take(i + 1))[n],
                            targets@[n].0,
                            targets@[n].1,
                        ) by {
                            if n < before.len() {
                                assert(targets@[n] == before[n]);
                            }
                        }
                    },
                    None => {
                        return PouchClicks { targets, clicked: now, lines_done: i, complete: false };
                    },
                }
            },
            Finding::Malformed => {
                return PouchClicks { targets, clicked: now, lines_done: i, complete: false };
            },
            _ => {
                assert(found_regions(fs@.take(i + 1)) == found_regions(fs@.take(i as int)));
            },
        }
        i = i + 1;
    }
    PouchClicks { targets, clicked: now, lines_done: i, complete: true }
}

} // verus!
