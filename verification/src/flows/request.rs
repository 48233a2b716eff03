//! Sending a trade request: open the trade tab and the trading post, find
//! the player, right-click them and send the request.

use vstd::prelude::*;
use crate::flows::common::{Outcome, Action, Event, Note, Probe, ran, saw, event_saw, output_text};
use crate::pointer::KeyStroke;

verus! {

/// `str::to_lowercase` of the characters of a string.
pub uninterp spec fn lowercase(s: Seq<char>) -> Seq<char>;

/// Calls `str::to_lowercase`. Its result is fixed by the Unicode case
/// tables for every string, so the contract names it; it states nothing
/// more of it.
#[verifier::external_body]
fn to_lower(s: &str) -> (r: String)
    ensures
        r@ == lowercase(s@),
{
    s.to_lowercase()
}

/// Where a trade request stands.
#[derive(PartialEq, Eq, Structural, Clone, Copy, Debug)]
pub enum RequestPhase {
    Start,
    /// Looking for the trade tab.
    FindTradeTab,
    ClickTradeTab,
    /// Looking for the trading post.
    FindPost,
    ClickPost,
    /// Checking that players are present at the trading post.
    FindPlayers,
    /// Looking for the search field of the players present.
    FindId,
    ClickPlayers,
    ClearName,
    TypeName,
    /// Right-clicking the first player found.
    OpenPlayer,
    /// Looking for the "send trade request" entry.
    FindSend,
    ClickSend,
    /// Looking for the trading window.
    FindWindow,
    /// Going back to the lobby before failing.
    Leaving(Note),
    Done(Outcome),
}

/// The next phase of a trade request, given what the host observed.
pub open spec fn request_next(p: RequestPhase, e: Event) -> RequestPhase {
    if e is Panicked && !(p is Done) {
        RequestPhase::Done(Outcome::Failed(Note::Panicked))
    } else {
        match p {
            RequestPhase::Start => RequestPhase::FindTradeTab,
            RequestPhase::FindTradeTab => if !ran(e) {
                RequestPhase::Done(Outcome::Failed(Note::Panicked))
            } else if saw(e) {
                RequestPhase::ClickTradeTab
            } else {
                RequestPhase::Leaving(Note::TraderAbsent)
            },
            RequestPhase::ClickTradeTab => RequestPhase::FindPost,
            RequestPhase::FindPost => if !ran(e) {
                RequestPhase::Done(Outcome::Failed(Note::Panicked))
            } else if saw(e) {
                RequestPhase::ClickPost
            } else {
                RequestPhase::Leaving(Note::TraderAbsent)
            },
            RequestPhase::ClickPost => RequestPhase::FindPlayers,
            RequestPhase::FindPlayers => if !ran(e) {
                RequestPhase::Done(Outcome::Failed(Note::Panicked))
            } else if saw(e) {
                RequestPhase::FindId
            } else {
                RequestPhase::Leaving(Note::TraderAbsent)
            },
            RequestPhase::FindId => if !ran(e) {
                RequestPhase::Done(Outcome::Failed(Note::Panicked))
            } else if saw(e) {
                RequestPhase::ClickPlayers
            } else {
                RequestPhase::Leaving(Note::TraderAbsent)
            },
            RequestPhase::ClickPlayers => RequestPhase::ClearName,
            RequestPhase::ClearName => RequestPhase::TypeName,
            RequestPhase::TypeName => RequestPhase::OpenPlayer,
            RequestPhase::OpenPlayer => RequestPhase::FindSend,
            RequestPhase::FindSend => if saw(e) {
                RequestPhase::ClickSend
            } else {
                RequestPhase::Leaving(Note::TraderDeclined)
            },
            RequestPhase::ClickSend => RequestPhase::FindWindow,
            RequestPhase::FindWindow => if !ran(e) {
                RequestPhase::Done(Outcome::Failed(Note::Panicked))
            } else if saw(e) {
                RequestPhase::Done(Outcome::Succeeded(Note::TradeAccepted))
            } else {
                RequestPhase::Leaving(Note::NoTradeWindow)
            },
            RequestPhase::Leaving(n) => RequestPhase::Done(Outcome::Failed(n)),
            RequestPhase::Done(r) => RequestPhase::Done(r),
        }
    }
}

/// The action that starts a phase of a trade request for the player `name`.
pub open spec fn request_entry(name: Seq<char>, p: RequestPhase, a: Action) -> bool {
    match p {
        RequestPhase::Start => a == Action::Pause(0),
        RequestPhase::FindTradeTab => a == Action::Detect(Probe::TradeTab),
        RequestPhase::ClickTradeTab => a == Action::ClickDetected { smooth: true, offset_y: 0 },
        RequestPhase::FindPost => a == Action::Detect(Probe::UtilityTrade),
        RequestPhase::ClickPost => a == Action::ClickDetected { smooth: true, offset_y: 0 },
        RequestPhase::FindPlayers => a == Action::Detect(Probe::PresentTrader),
        RequestPhase::FindId => a == Action::Detect(Probe::FindId),
        RequestPhase::ClickPlayers => a == Action::ClickDetected { smooth: true, offset_y: -33i32 },
        RequestPhase::ClearName => a == Action::Keys(KeyStroke::ClearField),
        RequestPhase::TypeName => a matches Action::TypeText(s) && s@ == lowercase(name),
        RequestPhase::OpenPlayer => a == Action::ClickRightAt { x: 1824, y: 312 },
        RequestPhase::FindSend => a == Action::Detect(Probe::SendRequest),
        RequestPhase::ClickSend => a == Action::ClickDetected { smooth: true, offset_y: 0 },
        RequestPhase::FindWindow => a == Action::Detect(Probe::TradeScreen),
        RequestPhase::Leaving(_) => a is ReturnToLobby,
        RequestPhase::Done(r) => a == Action::Finish(r),
    }
}

/// A trade request to the player with a given in-game name.
pub struct TradeRequest {
    pub phase: RequestPhase,
    pub name: String,
}

/// A trade request to the player `in_game_id`.
pub fn send_trade_request(in_game_id: &str) -> (r: TradeRequest)
    ensures
        r.phase == RequestPhase::Start,
        r.name@ == in_game_id@,
{
    TradeRequest { phase: RequestPhase::Start, name: in_game_id.to_owned() }
}

impl TradeRequest {
    /// The next phase, given what the host observed.
    fn next_phase(&self, e: &Event) -> (p: RequestPhase)
        ensures
            p == request_next(self.phase, *e),
    {
        if matches!(e, Event::Panicked) && !matches!(self.phase, RequestPhase::Done(_)) {
            return RequestPhase::Done(Outcome::Failed(Note::Panicked));
        }
        let ran = output_text(e).is_some();
        let saw = event_saw(e);
        match self.phase {
            RequestPhase::Start => RequestPhase::FindTradeTab,
            RequestPhase::FindTradeTab => if !ran {
                RequestPhase::Done(Outcome::Failed(Note::Panicked))
            } else if saw {
                RequestPhase::ClickTradeTab
            } else {
                RequestPhase::Leaving(Note::TraderAbsent)
            },
            RequestPhase::ClickTradeTab => RequestPhase::FindPost,
            RequestPhase::FindPost => if !ran {
                RequestPhase::Done(Outcome::Failed(Note::Panicked))
            } else if saw {
                RequestPhase::ClickPost
            } else {
                RequestPhase::Leaving(Note::TraderAbsent)
            },
            RequestPhase::ClickPost => RequestPhase::FindPlayers,
            RequestPhase::FindPlayers => if !ran {
                RequestPhase::Done(Outcome::Failed(Note::Panicked))
            } else if saw {
                RequestPhase::FindId
            } else {
                RequestPhase::Leaving(Note::TraderAbsent)
            },
            RequestPhase::FindId => if !ran {
                RequestPhase::Done(Outcome::Failed(Note::Panicked))
            } else if saw {
                RequestPhase::ClickPlayers
            } else {
                RequestPhase::Leaving(Note::TraderAbsent)
            },
            RequestPhase::ClickPlayers => RequestPhase::ClearName,
            RequestPhase::ClearName => RequestPhase::TypeName,
            RequestPhase::TypeName => RequestPhase::OpenPlayer,
            RequestPhase::OpenPlayer => RequestPhase::FindSend,
            RequestPhase::FindSend => if saw {
                RequestPhase::ClickSend
            } else {
                RequestPhase::Leaving(Note::TraderDeclined)
            },
            RequestPhase::ClickSend => RequestPhase::FindWindow,
            RequestPhase::FindWindow => if !ran {
                RequestPhase::Done(Outcome::Failed(Note::Panicked))
            } else if saw {
                RequestPhase::Done(Outcome::Succeeded(Note::TradeAccepted))
            } else {
                RequestPhase::Leaving(Note::NoTradeWindow)
            },
            RequestPhase::Leaving(n) => RequestPhase::Done(Outcome::Failed(n)),
            RequestPhase::Done(r) => RequestPhase::Done(r),
        }
    }

    /// The action that starts a phase.
    fn entry(&self, p: RequestPhase) -> (a: Action)
        ensures
            request_entry(self.name@, p, a),
    {
        match p {
            RequestPhase::Start => Action::Pause(0),
            RequestPhase::FindTradeTab => Action::Detect(Probe::TradeTab),
            RequestPhase::ClickTradeTab => Action::ClickDetected { smooth: true, offset_y: 0 },
            RequestPhase::FindPost => Action::Detect(Probe::UtilityTrade),
            RequestPhase::ClickPost => Action::ClickDetected { smooth: true, offset_y: 0 },
            RequestPhase::FindPlayers => Action::Detect(Probe::PresentTrader),
            RequestPhase::FindId => Action::Detect(Probe::FindId),
            RequestPhase::ClickPlayers => Action::ClickDetected { smooth: true, offset_y: -33 },
            RequestPhase::ClearName => Action::Keys(KeyStroke::ClearField),
            RequestPhase::TypeName => Action::TypeText(to_lower(self.name.as_str())),
            RequestPhase::OpenPlayer => Action::ClickRightAt { x: 1824, y: 312 },
            RequestPhase::FindSend => Action::Detect(Probe::SendRequest),
            RequestPhase::ClickSend => Action::ClickDetected { smooth: true, offset_y: 0 },
            RequestPhase::FindWindow => Action::Detect(Probe::TradeScreen),
            RequestPhase::Leaving(_) => Action::ReturnToLobby,
            RequestPhase::Done(r) => Action::Finish(r),
        }
    }

    /// Moves on by one step: takes what the host observed of the last action
    /// and returns the next action.
    pub fn step(&mut self, e: &Event) -> (a: Action)
        ensures
            final(self).phase == request_next(old(self).phase, *e),
            final(self).name == old(self).name,
            request_entry(old(self).name@, final(self).phase, a),
    {
        let p = self.next_phase(e);
        self.phase = p;
        self.entry(p)
    }
}

} // verus!
