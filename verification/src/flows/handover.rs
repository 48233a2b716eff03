//! Which trader's escrow a hand-over draws on: a claim takes what the other
//! side of the caller's trade put in, a return gives the caller back their
//! own.

use vstd::prelude::*;
use crate::traders::{Trader, TradersContainer, copy_of, is_first, named, none_is, other_in};

verus! {

/// Whose escrow a hand-over draws on.
#[derive(PartialEq, Eq, Structural, Clone, Copy, Debug)]
pub enum Handover {
    /// The escrow of the other side of the caller's trade goes to the
    /// caller.
    Claim,
    /// The caller's own escrow goes back to them.
    Return,
}

/// Where a claim finds the trader whose items move: the other side of the
/// trade of the first trader under the in-game name `id`.
pub open spec fn claim_source(s: Seq<Trader>, id: Seq<char>, t: Trader) -> bool {
    exists|i: int, j: int|
        #![trigger s[i], s[j]]
        is_first(s, i, named(id)) && is_first(s, j, other_in(s[i].discord_id@, s[i].discord_channel_id@))
            && copy_of(t, s[j])
}

/// Whether a claim finds no trader whose items move.
pub open spec fn claim_has_no_source(s: Seq<Trader>, id: Seq<char>) -> bool {
    ||| none_is(s, named(id))
    ||| exists|i: int|
        is_first(s, i, named(id)) && none_is(s, other_in(s[i].discord_id@, s[i].discord_channel_id@))
}

/// Where a return finds the trader whose items move: the first trader under
/// the in-game name `id`.
pub open spec fn return_source(s: Seq<Trader>, id: Seq<char>, t: Trader) -> bool {
    exists|i: int| is_first(s, i, named(id)) && copy_of(t, #[trigger] s[i])
}

/// The trader whose items a hand-over moves, as found in `s`.
pub open spec fn source_found(s: Seq<Trader>, id: Seq<char>, mode: Handover, tr: Option<Trader>) -> bool {
    match (mode, tr) {
        (Handover::Claim, Some(t)) => claim_source(s, id, t),
        (Handover::Claim, None) => claim_has_no_source(s, id),
        (Handover::Return, Some(t)) => return_source(s, id, t),
        (Handover::Return, None) => none_is(s, named(id)),
    }
}

/// The trader whose items a hand-over asked for by `in_game_id` moves.
pub fn find_source(traders: &TradersContainer, in_game_id: &str, mode: Handover) -> (r: Option<Trader>)
    ensures
        source_found(traders@, in_game_id@, mode, r),
        r matches Some(t) ==> t.item_images@.len() <= usize::MAX && t.info_images@.len()
            <= usize::MAX,
{
    match traders.position_by_in_game_id(in_game_id) {
        None => None,
        Some(i) => {
            let caller = traders.get(i);
            let k = match mode {
                Handover::Return => Some(i),
                Handover::Claim => traders.position_of_other_in_channel(
                    caller.discord_id.as_str(),
                    caller.discord_channel_id.as_str(),
                ),
            };
            match k {
                None => None,
                Some(j) => {
                    let t = traders.get(j).copy();
                    let _ = t.item_images.len();
                    let _ = t.info_images.len();
                    proof {
                        if mode == Handover::Claim {
                            assert(is_first(traders@, i as int, named(in_game_id@)));
                            assert(copy_of(t, traders@[j as int]));
                        } else {
                            assert(copy_of(t, traders@[i as int]));
                        }
                    }
                    Some(t)
                },
            }
        },
    }
}

} // verus!
