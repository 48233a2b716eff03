//! The traders of the ongoing trades, as the bot keeps them in memory.

use vstd::prelude::*;
use crate::text::{chars_of, same_text};

verus! {

/// Whether the bot is in the game's lobby and can trade.
#[derive(PartialEq, Eq, Structural, Clone, Copy, Debug)]
pub enum ReadyState {
    False,
    True,
    Starting,
}

/// What the bot knows of itself.
pub struct TradeBotInfo {
    pub ready: ReadyState,
    pub id: String,
}

/// One side of a trade: a Discord user in a trade channel, the in-game name
/// they trade under, the images of their items, their gold and whether they
/// have paid the fee.
pub struct Trader {
    pub in_game_id: String,
    pub discord_channel_id: String,
    pub discord_id: String,
    pub item_images: Vec<String>,
    pub info_images: Vec<String>,
    pub gold: i32,
    pub has_paid_gold_fee: bool,
}

/// A copy of a list of texts.
pub fn copy_texts(v: &Vec<String>) -> (r: Vec<String>)
    ensures
        r@ == v@,
{
    let mut r: Vec<String> = Vec::new();
    let mut k: usize = 0;
    while k < v.len()
        invariant
            k <= v@.len(),
            r@ == v@.take(k as int),
        decreases v@.len() - k,
    {
        r.push(v[k].clone());
        assert(r@ =~= v@.take(k + 1));
        k = k + 1;
    }
    assert(v@.take(v@.len() as int) =~= v@);
    r
}

/// Whether `t` holds what `u` holds.
pub open spec fn copy_of(t: Trader, u: Trader) -> bool {
    &&& t.in_game_id@ == u.in_game_id@
    &&& t.discord_channel_id@ == u.discord_channel_id@
    &&& t.discord_id@ == u.discord_id@
    &&& t.item_images@ == u.item_images@
    &&& t.info_images@ == u.info_images@
    &&& t.gold == u.gold
    &&& t.has_paid_gold_fee == u.has_paid_gold_fee
}

impl Trader {
    /// A trader with no name, no ids, no items and no gold.
    pub fn empty() -> (t: Trader)
        ensures
            t.in_game_id@ == Seq::<char>::empty(),
            t.discord_channel_id@ == Seq::<char>::empty(),
            t.discord_id@ == Seq::<char>::empty(),
            t.item_images@ == Seq::<String>::empty(),
            t.info_images@ == Seq::<String>::empty(),
            t.gold == 0,
            !t.has_paid_gold_fee,
    {
        Trader {
            in_game_id: String::new(),
            discord_channel_id: String::new(),
            discord_id: String::new(),
            item_images: Vec::new(),
            info_images: Vec::new(),
            gold: 0,
            has_paid_gold_fee: false,
        }
    }

    /// A copy of this trader.
    pub fn copy(&self) -> (t: Trader)
        ensures
            t.in_game_id == self.in_game_id,
            t.discord_channel_id == self.discord_channel_id,
            t.discord_id == self.discord_id,
            t.item_images@ == self.item_images@,
            t.info_images@ == self.info_images@,
            t.gold == self.gold,
            t.has_paid_gold_fee == self.has_paid_gold_fee,
            copy_of(t, *self),
    {
        Trader {
            in_game_id: self.in_game_id.clone(),
            discord_channel_id: self.discord_channel_id.clone(),
            discord_id: self.discord_id.clone(),
            item_images: copy_texts(&self.item_images),
            info_images: copy_texts(&self.info_images),
            gold: self.gold,
            has_paid_gold_fee: self.has_paid_gold_fee,
        }
    }
}

/// Whether two strings hold the same characters.
pub fn text_eq(a: &str, b: &str) -> (r: bool)
    ensures
        r == (a@ == b@),
{
    same_text(&chars_of(a), &chars_of(b))
}

/// The traders of the ongoing trades.
pub enum TradersContainer {
    ActiveTraders(Vec<Trader>),
}

impl View for TradersContainer {
    type V = Seq<Trader>;

    open spec fn view(&self) -> Seq<Trader> {
        match self {
            TradersContainer::ActiveTraders(v) => v@,
        }
    }
}

/// Whether `i` is the first index of `s` whose trader satisfies `p`.
pub open spec fn is_first(s: Seq<Trader>, i: int, p: spec_fn(Trader) -> bool) -> bool {
    &&& 0 <= i < s.len()
    &&& p(s[i])
    &&& forall|j: int| 0 <= j < i ==> !p(#[trigger] s[j])
}

/// Whether no trader of `s` satisfies `p`.
pub open spec fn none_is(s: Seq<Trader>, p: spec_fn(Trader) -> bool) -> bool {
    forall|j: int| 0 <= j < s.len() ==> !p(#[trigger] s[j])
}

/// Traders who trade under the in-game name `id`.
pub open spec fn named(id: Seq<char>) -> spec_fn(Trader) -> bool {
    |t: Trader| t.in_game_id@ == id
}

/// Traders in channel `channel` other than the Discord user `discord_id`.
pub open spec fn other_in(discord_id: Seq<char>, channel: Seq<char>) -> spec_fn(Trader) -> bool {
    |t: Trader| t.discord_channel_id@ == channel && t.discord_id@ != discord_id
}

/// The trader of the Discord user `discord_id` in channel `channel`.
pub open spec fn user_in(discord_id: Seq<char>, channel: Seq<char>) -> spec_fn(Trader) -> bool {
    |t: Trader| t.discord_id@ == discord_id && t.discord_channel_id@ == channel
}

impl TradersContainer {
    /// An empty list of traders.
    pub fn new() -> (c: TradersContainer)
        ensures
            c@ == Seq::<Trader>::empty(),
    {
        TradersContainer::ActiveTraders(Vec::new())
    }

    /// The number of traders.
    pub fn len(&self) -> (n: usize)
        ensures
            n == self@.len(),
    {
        match self {
            TradersContainer::ActiveTraders(traders) => traders.len(),
        }
    }

    /// The trader at position `i`.
    pub fn get(&self, i: usize) -> (t: &Trader)
        requires
            i < self@.len(),
        ensures
            *t == self@[i as int],
    {
        match self {
            TradersContainer::ActiveTraders(traders) => &traders[i],
        }
    }

    /// Adds a trader at the end.
    pub fn append(&mut self, trader: Trader)
        ensures
            final(self)@ == old(self)@.push(trader),
    {
        match self {
            TradersContainer::ActiveTraders(traders) => {
                traders.push(trader);
            },
        }
    }

    /// The position of the first trader who trades under the in-game name
    /// `in_game_id`.
    pub fn position_by_in_game_id(&self, in_game_id: &str) -> (r: Option<usize>)
        ensures
            match r {
                Some(i) => is_first(self@, i as int, named(in_game_id@)),
                None => none_is(self@, named(in_game_id@)),
            },
    {
        let n = self.len();
        let mut k: usize = 0;
        while k < n
            invariant
                n == self@.len(),
                k <= n,
                forall|j: int| 0 <= j < k ==> !(named(in_game_id@))(#[trigger] self@[j]),
            decreases n - k,
        {
            let t = self.get(k);
            if text_eq(t.in_game_id.as_str(), in_game_id) {
                return Some(k);
            }
            k = k + 1;
        }
        None
    }

    /// The first trader who trades under the in-game name `in_game_id`.
    pub fn get_trader_by_in_game_id(&self, in_game_id: &str) -> (r: Option<&Trader>)
        ensures
            match r {
                Some(t) => exists|i: int| is_first(self@, i, named(in_game_id@)) && *t == self@[i],
                None => none_is(self@, named(in_game_id@)),
            },
    {
        match self.position_by_in_game_id(in_game_id) {
            Some(k) => Some(self.get(k)),
            None => None,
        }
    }

    /// The position of the first trader in channel `discord_channel_id` who
    /// is not the Discord user `discord_id`.
    pub fn position_of_other_in_channel(&self, discord_id: &str, discord_channel_id: &str) -> (r:
        Option<usize>)
        ensures
            match r {
                Some(i) => is_first(self@, i as int, other_in(discord_id@, discord_channel_id@)),
                None => none_is(self@, other_in(discord_id@, discord_channel_id@)),
            },
    {
        let n = self.len();
        let mut k: usize = 0;
        while k < n
            invariant
                n == self@.len(),
                k <= n,
                forall|j: int|
                    0 <= j < k ==> !(other_in(discord_id@, discord_channel_id@))(
                        #[trigger] self@[j],
                    ),
            decreases n - k,
        {
            let t = self.get(k);
            if text_eq(t.discord_channel_id.as_str(), discord_channel_id) && !text_eq(
                t.discord_id.as_str(),
                discord_id,
            ) {
                return Some(k);
            }
            k = k + 1;
        }
        None
    }

    /// The first trader in channel `discord_channel_id` who is not the Discord
    /// user `discord_id`: the other side of that user's trade.
    pub fn get_other_trader_in_channel(&self, discord_id: &str, discord_channel_id: &str) -> (r:
        Option<&Trader>)
        ensures
            match r {
                Some(t) => exists|i: int|
                    is_first(self@, i, other_in(discord_id@, discord_channel_id@)) && *t == self@[i],
                None => none_is(self@, other_in(discord_id@, discord_channel_id@)),
            },
    {
        match self.position_of_other_in_channel(discord_id, discord_channel_id) {
            Some(k) => Some(self.get(k)),
            None => None,
        }
    }

    /// The position of the first trader of the Discord user `discord_id` in
    /// channel `discord_channel_id`.
    pub fn position_of_user(&self, discord_id: &str, discord_channel_id: &str) -> (r: Option<
        usize,
    >)
        ensures
            match r {
                Some(i) => is_first(self@, i as int, user_in(discord_id@, discord_channel_id@)),
                None => none_is(self@, user_in(discord_id@, discord_channel_id@)),
            },
    {
        let n = self.len();
        let mut k: usize = 0;
        while k < n
            invariant
                n == self@.len(),
                k <= n,
                forall|j: int|
                    0 <= j < k ==> !(user_in(discord_id@, discord_channel_id@))(
                        #[trigger] self@[j],
                    ),
            decreases n - k,
        {
            let t = self.get(k);
            if text_eq(t.discord_id.as_str(), discord_id) && text_eq(
                t.discord_channel_id.as_str(),
                discord_channel_id,
            ) {
                return Some(k);
            }
            k = k + 1;
        }
        None
    }

    /// Takes the trader at position `i` out, leaving an empty one there.
    fn take_at(&mut self, i: usize) -> (t: Trader)
        requires
            i < old(self)@.len(),
        ensures
            t == old(self)@[i as int],
            final(self)@ == old(self)@.update(i as int, final(self)@[i as int]),
    {
        match self {
            TradersContainer::ActiveTraders(traders) => {
                let mut t = Trader::empty();
                traders.set_and_swap(i, &mut t);
                t
            },
        }
    }

    /// Puts a trader at position `i`.
    fn put_at(&mut self, i: usize, t: Trader)
        requires
            i < old(self)@.len(),
        ensures
            final(self)@ == old(self)@.update(i as int, t),
    {
        match self {
            TradersContainer::ActiveTraders(traders) => {
                traders.set(i, t);
            },
        }
    }

    /// Sets whether the first trader under the in-game name `in_game_id` has
    /// paid the fee; nothing changes where there is no such trader.
    pub fn update_gold_fee_status(&mut self, in_game_id: &str, new_status: bool)
        ensures
            final(self)@.len() == old(self)@.len(),
            none_is(old(self)@, named(in_game_id@)) ==> final(self)@ == old(self)@,
            forall|i: int|
                is_first(old(self)@, i, named(in_game_id@)) ==> {
                    &&& final(self)@ == old(self)@.update(i, final(self)@[i])
                    &&& final(self)@[i].has_paid_gold_fee == new_status
                    &&& final(self)@[i].in_game_id == old(self)@[i].in_game_id
                    &&& final(self)@[i].discord_channel_id == old(self)@[i].discord_channel_id
                    &&& final(self)@[i].discord_id == old(self)@[i].discord_id
                    &&& final(self)@[i].item_images == old(self)@[i].item_images
                    &&& final(self)@[i].info_images == old(self)@[i].info_images
                    &&& final(self)@[i].gold == old(self)@[i].gold
                },
    {
        match self.position_by_in_game_id(in_game_id) {
            Some(k) => {
                let ghost before = self@;
                let mut t = self.take_at(k);
                t.has_paid_gold_fee = new_status;
                self.put_at(k, t);
                assert forall|i: int| is_first(before, i, named(in_game_id@)) implies i == k by {
                    if i < k {
                    } else if i > k {
                        assert(!(named(in_game_id@))(before[k as int]));
                    }
                }
                assert(self@ =~= before.update(k as int, self@[k as int]));
            },
            None => {},
        }
    }

    /// Sets whether the first trader of the Discord user `discord_id` in
    /// channel `discord_channel_id` has paid the fee; nothing changes where
    /// there is no such trader.
    pub fn update_gold_fee_status_by_discord_info(
        &mut self,
        discord_id: &str,
        discord_channel_id: &str,
        new_status: bool,
    )
        ensures
            final(self)@.len() == old(self)@.len(),
            none_is(old(self)@, user_in(discord_id@, discord_channel_id@)) ==> final(self)@ == old(
                self,
            )@,
            forall|i: int|
                is_first(old(self)@, i, user_in(discord_id@, discord_channel_id@)) ==> {
                    &&& final(self)@ == old(self)@.update(i, final(self)@[i])
                    &&& final(self)@[i].has_paid_gold_fee == new_status
                    &&& final(self)@[i].in_game_id == old(self)@[i].in_game_id
                    &&& final(self)@[i].discord_channel_id == old(self)@[i].discord_channel_id
                    &&& final(self)@[i].discord_id == old(self)@[i].discord_id
                    &&& final(self)@[i].item_images == old(self)@[i].item_images
                    &&& final(self)@[i].info_images == old(self)@[i].info_images
                    &&& final(self)@[i].gold == old(self)@[i].gold
                },
    {
        match self.position_of_user(discord_id, discord_channel_id) {
            Some(k) => {
                let ghost before = self@;
                let mut t = self.take_at(k);
                t.has_paid_gold_fee = new_status;
                self.put_at(k, t);
                assert forall|i: int|
                    is_first(before, i, user_in(discord_id@, discord_channel_id@)) implies i
                    == k by {
                    if i < k {
                    } else if i > k {
                        assert(!(user_in(discord_id@, discord_channel_id@))(before[k as int]));
                    }
                }
                assert(self@ =~= before.update(k as int, self@[k as int]));
            },
            None => {},
        }
    }

    /// Gives the first trader of the Discord user `discord_id` in channel
    /// `discord_channel_id` the in-game name `new_in_game_id`; nothing changes
    /// where there is no such trader.
    pub fn set_in_game_id_by_discord_info(
        &mut self,
        new_in_game_id: &str,
        discord_id: &str,
        discord_channel_id: &str,
    )
        ensures
            final(self)@.len() == old(self)@.len(),
            none_is(old(self)@, user_in(discord_id@, discord_channel_id@)) ==> final(self)@ == old(
                self,
            )@,
            forall|i: int|
                is_first(old(self)@, i, user_in(discord_id@, discord_channel_id@)) ==> {
                    &&& final(self)@ == old(self)@.update(i, final(self)@[i])
                    &&& final(self)@[i].in_game_id@ == new_in_game_id@
                    &&& final(self)@[i].discord_channel_id == old(self)@[i].discord_channel_id
                    &&& final(self)@[i].discord_id == old(self)@[i].discord_id
                    &&& final(self)@[i].item_images == old(self)@[i].item_images
                    &&& final(self)@[i].info_images == old(self)@[i].info_images
                    &&& final(self)@[i].gold == old(self)@[i].gold
                    &&& final(self)@[i].has_paid_gold_fee == old(self)@[i].has_paid_gold_fee
                },
    {
        match self.position_of_user(discord_id, discord_channel_id) {
            Some(k) => {
                let ghost before = self@;
                let mut t = self.take_at(k);
                t.in_game_id = new_in_game_id.to_owned();
                self.put_at(k, t);
                assert forall|i: int|
                    is_first(before, i, user_in(discord_id@, discord_channel_id@)) implies i
                    == k by {
                    if i < k {
                    } else if i > k {
                        assert(!(user_in(discord_id@, discord_channel_id@))(before[k as int]));
                    }
                }
                assert(self@ =~= before.update(k as int, self@[k as int]));
            },
            None => {},
        }
    }
}

/// Adding a trader and then looking up its in-game name finds it, where no
/// trader before it has that name.
pub proof fn lemma_append_then_find(s: Seq<Trader>, t: Trader)
    requires
        none_is(s, named(t.in_game_id@)),
    ensures
        is_first(s.push(t), s.len() as int, named(t.in_game_id@)),
{
    assert forall|j: int| 0 <= j < s.len() implies !(named(t.in_game_id@))(#[trigger] s.push(t)[j]) by {
        assert(s.push(t)[j] == s[j]);
    }
}

/// Adding a trader leaves a lookup that already found a trader unchanged.
pub proof fn lemma_append_keeps_find(s: Seq<Trader>, t: Trader, i: int, id: Seq<char>)
    requires
        is_first(s, i, named(id)),
    ensures
        is_first(s.push(t), i, named(id)),
{
    assert forall|j: int| 0 <= j < i implies !(named(id))(#[trigger] s.push(t)[j]) by {
        assert(s.push(t)[j] == s[j]);
    }
    assert(s.push(t)[i] == s[i]);
}

/// Giving the trader of a user an in-game name and then looking up that
/// name finds that trader, where no trader before it has the name.
pub proof fn lemma_rename_then_find(
    s: Seq<Trader>,
    renamed: Seq<Trader>,
    i: int,
    id: Seq<char>,
    discord_id: Seq<char>,
    channel: Seq<char>,
)
    requires
        is_first(s, i, user_in(discord_id, channel)),
        renamed == s.update(i, renamed[i]),
        renamed[i].in_game_id@ == id,
        forall|j: int| 0 <= j < i ==> !(named(id))(#[trigger] s[j]),
    ensures
        is_first(renamed, i, named(id)),
{
    assert forall|j: int| 0 <= j < i implies !(named(id))(#[trigger] renamed[j]) by {
        assert(renamed[j] == s[j]);
    }
}

} // verus!
