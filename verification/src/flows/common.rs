//! What the machines ask of the host, what the host answers, and the
//! messages that the procedures end with.

use vstd::prelude::*;
use crate::detect::{Region, detected, is_miss_line, output_lines};
use crate::pointer::KeyStroke;
use crate::text::{chars_of, reads_as, split_at_char, trimmed, views};

verus! {

/// The screen detectors that the bot runs, each with its image and flags.
#[derive(PartialEq, Eq, Structural, Clone, Copy, Debug)]
pub enum Probe {
    /// `obj_detection.py images/update.png SF`
    Update,
    /// `obj_detection.py images/play.png L`
    LauncherPlay,
    /// `obj_detection.py images/play.png F`
    LauncherPlayFast,
    /// `obj_detection.py images/okay_start.png`
    OkayStart,
    /// `obj_detection.py images/enter_lobby.png`
    EnterLobby,
    /// `obj_detection.py images/gold_fee2.png S`
    GoldFee,
    /// `obj_detection.py images/gold_fee_double_check.png S`
    GoldFeeDoubleCheck,
    /// `obj_detection.py images/trade_checkbox.png`
    TradeCheckbox,
    /// `obj_detection.py images/trader_ready.png`
    TraderReady,
    /// `obj_detection.py images/second_phase_check.png`
    SecondPhase,
    /// `obj_detection.py temp_images/info/image.png SF CR`
    InfoMatch,
    /// `obj_detection.py images/stash.png F C`
    Stash,
    /// `obj_detection.py images/inventory.png F C`
    Inventory,
    /// `obj_detection.py images/trade_tab.png F`
    TradeTab,
    /// `obj_detection.py images/utility_trade.png F`
    UtilityTrade,
    /// `obj_detection.py images/present_trader.png F`
    PresentTrader,
    /// `obj_detection.py images/find_id.png F`
    FindId,
    /// `obj_detection.py images/trade_send_request.png F`
    SendRequest,
    /// `obj_detection.py images/trade_screen_identifier.png C F`
    TradeScreen,
    /// `obj_detection.py images/in_play_tab.png SF C`
    InPlayTab,
    /// `obj_detection.py images/play_tab.png SF`
    PlayTab,
    /// `obj_detection.py images/play_tab.png F`
    PlayTabFast,
    /// `obj_detection.py images/leave_post.png F C`
    LeavePost,
    /// `obj_detection.py images/stop_game.png F`
    StopGame,
    /// `obj_detection.py images/close_game_ok.png F`
    CloseGameOk,
    /// `inspect_items.py`
    InspectItems,
    /// `multi_obj_detection_narrow.py temp_images/item/image.png SC F G CR`
    ItemInWindow,
    /// `multi_obj_detection_inv_stash.py temp_images/item/image.png SC F CR`
    ItemInStorage,
    /// `multi_obj_detection_inv_stash.py images/50_gold_pouch.png F`
    Pouches50,
    /// `multi_obj_detection_inv_stash.py images/35_gold_pouch.png F`
    Pouches35,
    /// `total_gold.py`
    TraderGold,
    /// `total_bot_gold.py`
    BotGold,
}

/// Where a downloaded image goes.
#[derive(PartialEq, Eq, Structural, Clone, Copy, Debug)]
pub enum ImageSlot {
    /// `temp_images/item/image.png`
    Item,
    /// `temp_images/info/image.png`
    Info,
}

/// The status an item gets in the database.
#[derive(PartialEq, Eq, Structural, Clone, Copy, Debug)]
pub enum ItemStatus {
    /// `in escrow`: the bot holds it.
    InEscrow,
    /// `traded`: handed to the other side.
    Traded,
    /// `returned`: handed back to its owner.
    Returned,
}

/// How the host acts on each line of a detector's output.
#[derive(PartialEq, Eq, Structural, Clone, Copy, Debug)]
pub enum LineStyle {
    /// A miss: move away and left-click; a region: click it directly (the
    /// magnifying glass over an item), minimising the game or not.
    Inspect { minimize: bool },
    /// A miss: move away and left-click; a region: move there quickly and
    /// left-click.
    Confirm,
    /// A miss: move away and left-click; any other line: nothing.
    Misses,
}

/// The messages that the procedures end with.
#[derive(PartialEq, Eq, Structural, Clone, Copy, Debug)]
pub enum Note {
    TradeSuccessful,
    FeeCollected,
    FeeNotPaid,
    PlayerDeclinedTrade,
    PlayerDeclined,
    FeeMissing,
    TradeNotAccepted,
    DownloadFailed,
    GoldAdded,
    GoldNotAdded,
    Success,
    TradeError,
    SomethingWrong,
    NoEscrowItems,
    NoItemsFound,
    ItemNotFound,
    NotEnoughGoldLeft,
    NotEnoughGold,
    GoldNotRecorded,
    FeeNotRecorded,
    ClickFailed,
    TraderAbsent,
    TraderDeclined,
    NoTradeWindow,
    TradeAccepted,
    Panicked,
}

/// The text of a message.
pub open spec fn note_text(n: Note) -> Seq<char> {
    match n {
        Note::TradeSuccessful => "Trade successful"@,
        Note::FeeCollected => "Successfully collected fee!"@,
        Note::FeeNotPaid => "User has not yet paid the gold fee"@,
        Note::PlayerDeclinedTrade => "Player declined trade request"@,
        Note::PlayerDeclined => "Player declined request"@,
        Note::FeeMissing => "User did not put in gold fee"@,
        Note::TradeNotAccepted => "User did not accept trade"@,
        Note::DownloadFailed => "Could not download image"@,
        Note::GoldAdded => "Added gold"@,
        Note::GoldNotAdded => "Could not add gold"@,
        Note::Success => "Success"@,
        Note::TradeError => "Error during trade"@,
        Note::SomethingWrong => "Something went wrong"@,
        Note::NoEscrowItems => "No items left in escrow"@,
        Note::NoItemsFound => "No items found"@,
        Note::ItemNotFound => "Could not find item"@,
        Note::NotEnoughGoldLeft => "User did not have enough gold left for a trade"@,
        Note::NotEnoughGold => "Not enough gold"@,
        Note::GoldNotRecorded => "Error adding gold for trader"@,
        Note::FeeNotRecorded => "Could not update gold status"@,
        Note::ClickFailed => "Error while trying to click button"@,
        Note::TraderAbsent => "Trader was not present in trading channel"@,
        Note::TraderDeclined => "Trader declined request"@,
        Note::NoTradeWindow => "Could not detect trading window"@,
        Note::TradeAccepted => "User accepted trade"@,
        Note::Panicked => "Got error while trying to unwrap panic. Error: Any { .. }"@,
    }
}

impl Note {
    /// The text of this message.
    pub fn text(&self) -> (s: String)
        ensures
            s@ == note_text(*self),
    {
        let lit = match self {
            Note::TradeSuccessful => "Trade successful",
            Note::FeeCollected => "Successfully collected fee!",
            Note::FeeNotPaid => "User has not yet paid the gold fee",
            Note::PlayerDeclinedTrade => "Player declined trade request",
            Note::PlayerDeclined => "Player declined request",
            Note::FeeMissing => "User did not put in gold fee",
            Note::TradeNotAccepted => "User did not accept trade",
            Note::DownloadFailed => "Could not download image",
            Note::GoldAdded => "Added gold",
            Note::GoldNotAdded => "Could not add gold",
            Note::Success => "Success",
            Note::TradeError => "Error during trade",
            Note::SomethingWrong => "Something went wrong",
            Note::NoEscrowItems => "No items left in escrow",
            Note::NoItemsFound => "No items found",
            Note::ItemNotFound => "Could not find item",
            Note::NotEnoughGoldLeft => "User did not have enough gold left for a trade",
            Note::NotEnoughGold => "Not enough gold",
            Note::GoldNotRecorded => "Error adding gold for trader",
            Note::FeeNotRecorded => "Could not update gold status",
            Note::ClickFailed => "Error while trying to click button",
            Note::TraderAbsent => "Trader was not present in trading channel",
            Note::TraderDeclined => "Trader declined request",
            Note::NoTradeWindow => "Could not detect trading window",
            Note::TradeAccepted => "User accepted trade",
            Note::Panicked => "Got error while trying to unwrap panic. Error: Any { .. }",
        };
        lit.to_owned()
    }
}

/// How a procedure ended: with a success or a failure message.
#[derive(PartialEq, Eq, Structural, Clone, Copy, Debug)]
pub enum Outcome {
    Succeeded(Note),
    Failed(Note),
    /// A procedure that reports nothing ran to its end.
    Completed,
}

/// What a detector ended with: whether it succeeded, and what it printed.
pub struct Captured {
    pub succeeded: bool,
    pub stdout: String,
}

/// A request to the database.
pub enum Store {
    /// Mark the fee of this user in this channel as paid.
    SetFeePaid { channel: String, discord: String },
    /// Whether this user in this channel has paid the fee.
    HasPaidFee { channel: String, discord: String },
    /// How many of this user's items in this channel are in escrow.
    EscrowCount { channel: String, discord: String },
    /// Add gold to what this user traded in this channel.
    AddGoldTraded { channel: String, discord: String, amount: i32 },
    /// Add gold to what this user received in this channel.
    AddGoldReceived { channel: String, discord: String, amount: i32 },
    /// Set the status of the item with these images.
    SetItemStatus { item_url: String, info_url: String, status: ItemStatus },
}

/// What a machine asks the host to do next.
pub enum Action {
    /// Read whether the bot is ready.
    CheckReady,
    /// Start the game and go to the lobby, in the background.
    LaunchGame,
    /// Wait this many milliseconds.
    Pause(u64),
    /// Run a detector and report its output.
    Detect(Probe),
    /// Click the region of the last detector's output (smoothly or not, moved
    /// down by `offset_y`), and report whether the detector had succeeded.
    ClickDetected { smooth: bool, offset_y: i32 },
    /// Right-click directly at a point, smoothly, without minimising.
    ClickRightAt { x: i32, y: i32 },
    /// Press keys.
    Keys(KeyStroke),
    /// Type a text.
    TypeText(String),
    /// Act on each line of a detector's output.
    ActOnLines { output: String, style: LineStyle },
    /// Move quickly to a point away from the items.
    MoveAway,
    /// Move quickly to the salted centre of a region.
    MoveToRegion(Region),
    /// Left-click where the mouse is.
    LeftClick,
    /// Put pouches into the trade window: for each point in turn, move
    /// quickly there, wait 300 ms and left-click.
    ClickPouches(Vec<(i32, i32)>),
    /// Download an image.
    Download { url: String, slot: ImageSlot },
    /// Ask the database.
    Ask(Store),
    /// Send a trade request to a player, and report whether they accepted.
    SendTradeRequest(String),
    /// Go back to the lobby.
    ReturnToLobby,
    /// Restart the game in the background, without touching the bot's state.
    RestartGame,
    /// Record that the trader of this Discord user in this channel has paid
    /// the fee.
    MarkFeePaid { discord: String, channel: String },
    /// Set whether the bot is ready.
    SetReady(ReadyFlag),
    /// The procedure is over, with this result.
    Finish(Outcome),
}

/// A value of the bot's readiness that a machine sets.
#[derive(PartialEq, Eq, Structural, Clone, Copy, Debug)]
pub enum ReadyFlag {
    Starting,
    /// Ready, with the bot's in-game name `Middleman2`.
    Ready,
}

/// What the host observed.
pub enum Event {
    /// The action is done (or the procedure starts).
    Go,
    /// The bot's readiness.
    Ready(crate::traders::ReadyState),
    /// A detector's output; `None` where it could not be run.
    Output(Option<Captured>),
    /// Whether a click on a detected region went through.
    Clicked(bool),
    /// Whether a download succeeded.
    Fetched(bool),
    /// The number of items in escrow; `None` where the database failed.
    Count(Option<i32>),
    /// Whether the fee is paid; `None` where the database failed.
    Paid(Option<bool>),
    /// Whether a database write succeeded.
    Stored(bool),
    /// Whether the player accepted the trade request; `None` where the
    /// request procedure panicked.
    Requested(Option<bool>),
    /// The action panicked.
    Panicked,
}

/// The printed output of a detector that ran.
pub open spec fn printed(e: Event) -> Option<Seq<char>> {
    match e {
        Event::Output(Some(c)) => Some(c.stdout@),
        _ => None,
    }
}

/// Whether a detector that ran reported a match.
pub open spec fn saw(e: Event) -> bool {
    match printed(e) {
        Some(t) => detected(t),
        None => false,
    }
}

/// Whether a detector could be run at all.
pub open spec fn ran(e: Event) -> bool {
    printed(e) is Some
}

/// The output text of an event, where it carries one.
pub fn output_text(e: &Event) -> (r: Option<&String>)
    ensures
        match r {
            Some(s) => printed(*e) == Some(s@),
            None => printed(*e) is None,
        },
{
    match e {
        Event::Output(Some(c)) => Some(&c.stdout),
        _ => None,
    }
}

/// Whether the event reports a detector that ran and matched.
pub fn event_saw(e: &Event) -> (r: bool)
    ensures
        r == saw(*e),
{
    match output_text(e) {
        Some(s) => crate::detect::was_detected(s.as_str()),
        None => false,
    }
}

/// How many lines of a detector's output are not misses.
pub open spec fn hit_lines(out: Seq<char>) -> nat {
    output_lines(out).filter(|l: Seq<char>| !is_miss_line(l)).len()
}

/// Counts the lines of a detector's output that are not misses.
pub fn count_hits(out: &str) -> (n: usize)
    ensures
        n == hit_lines(out@),
{
    let t = trimmed(&chars_of(out));
    let lines = split_at_char(&t, '\n');
    let ghost ls = output_lines(out@);
    let ghost keep = |l: Seq<char>| !is_miss_line(l);
    let mut n: usize = 0;
    let mut k: usize = 0;
    while k < lines.len()
        invariant
            views(lines@) == ls,
            ls == output_lines(out@),
            keep == (|l: Seq<char>| !is_miss_line(l)),
            k <= lines@.len(),
            n == ls.take(k as int).filter(keep).len(),
            n <= k,
        decreases lines@.len() - k,
    {
        assert(ls[k as int] == lines@[k as int]@);
        assert(ls.take(k + 1).drop_last() =~= ls.take(k as int));
        reveal_with_fuel(Seq::filter, 1);
        let miss = reads_as(&lines[k], "Could not detect") || lines[k].len() == 0;
        if !miss {
            n = n + 1;
        }
        k = k + 1;
    }
    assert(ls.take(ls.len() as int) =~= ls);
    n
}

} // verus!
