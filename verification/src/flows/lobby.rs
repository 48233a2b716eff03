//! Going back to the lobby: from the play tab, from a trading post or a
//! trade, or, failing that, by stopping and restarting the game.

use vstd::prelude::*;
use crate::flows::common::{Action, Event, Note, Outcome, Probe, event_saw, output_text, ran, saw};
use crate::pointer::KeyStroke;

verus! {

/// Where the way back to the lobby stands. `round` counts the attempts to
/// leave a trade or trading post (0 or 1).
#[derive(PartialEq, Eq, Structural, Clone, Copy, Debug)]
pub enum LobbyPhase {
    Start,
    /// Checking whether the bot is already in the play tab.
    CheckInPlay,
    FindPlayTab,
    ClickPlayTab,
    PressEscape { round: u8 },
    FindLeave { round: u8 },
    ClickLeave { round: u8 },
    FindPlayAgain { round: u8 },
    ClickPlayAgain { round: u8 },
    Minimize,
    FindStop,
    ClickStop,
    FindConfirm,
    ClickConfirm,
    Restart,
    Done(Outcome),
}

/// The end of a way back to the lobby that gave up.
pub open spec fn panicked_end() -> LobbyPhase {
    LobbyPhase::Done(Outcome::Failed(Note::Panicked))
}

/// After a round of leaving that did not reach the play tab: another round,
/// or stopping the game after the second.
pub open spec fn after_round(round: u8) -> LobbyPhase {
    if round == 0 {
        LobbyPhase::PressEscape { round: 1 }
    } else {
        LobbyPhase::Minimize
    }
}

/// The next phase on the way back to the lobby.
pub open spec fn lobby_next(p: LobbyPhase, e: Event) -> LobbyPhase {
    if e is Panicked && !(p is Done) {
        panicked_end()
    } else {
        match p {
            LobbyPhase::Start => LobbyPhase::CheckInPlay,
            LobbyPhase::CheckInPlay => if !ran(e) {
                panicked_end()
            } else if saw(e) {
                LobbyPhase::Done(Outcome::Completed)
            } else {
                LobbyPhase::FindPlayTab
            },
            LobbyPhase::FindPlayTab => if !ran(e) {
                panicked_end()
            } else if saw(e) {
                LobbyPhase::ClickPlayTab
            } else {
                LobbyPhase::PressEscape { round: 0 }
            },
            LobbyPhase::ClickPlayTab => if e == Event::Clicked(true) {
                LobbyPhase::Done(Outcome::Completed)
            } else {
                LobbyPhase::PressEscape { round: 0 }
            },
            LobbyPhase::PressEscape { round } => LobbyPhase::FindLeave { round },
            LobbyPhase::FindLeave { round } => if !ran(e) {
                panicked_end()
            } else if saw(e) {
                LobbyPhase::ClickLeave { round }
            } else {
                LobbyPhase::FindPlayAgain { round }
            },
            LobbyPhase::ClickLeave { round } => LobbyPhase::FindPlayAgain { round },
            LobbyPhase::FindPlayAgain { round } => if !ran(e) {
                panicked_end()
            } else if saw(e) {
                LobbyPhase::ClickPlayAgain { round }
            } else {
                after_round(round)
            },
            LobbyPhase::ClickPlayAgain { round } => if e == Event::Clicked(true) {
                LobbyPhase::Done(Outcome::Completed)
            } else {
                after_round(round)
            },
            LobbyPhase::Minimize => LobbyPhase::FindStop,
            LobbyPhase::FindStop => if !ran(e) {
                panicked_end()
            } else if saw(e) {
                LobbyPhase::ClickStop
            } else {
                LobbyPhase::Restart
            },
            LobbyPhase::ClickStop => if e == Event::Clicked(true) {
                LobbyPhase::FindConfirm
            } else {
                LobbyPhase::Restart
            },
            LobbyPhase::FindConfirm => if !ran(e) {
                panicked_end()
            } else if saw(e) {
                LobbyPhase::ClickConfirm
            } else {
                LobbyPhase::Restart
            },
            LobbyPhase::ClickConfirm => LobbyPhase::Restart,
            LobbyPhase::Restart => LobbyPhase::Done(Outcome::Completed),
            LobbyPhase::Done(o) => LobbyPhase::Done(o),
        }
    }
}

/// The action that starts a phase on the way back to the lobby.
pub open spec fn lobby_entry(p: LobbyPhase) -> Action {
    match p {
        LobbyPhase::Start => Action::Pause(0),
        LobbyPhase::CheckInPlay => Action::Detect(Probe::InPlayTab),
        LobbyPhase::FindPlayTab => Action::Detect(Probe::PlayTab),
        LobbyPhase::ClickPlayTab => Action::ClickDetected { smooth: true, offset_y: 0 },
        LobbyPhase::PressEscape { .. } => Action::Keys(KeyStroke::Escape),
        LobbyPhase::FindLeave { .. } => Action::Detect(Probe::LeavePost),
        LobbyPhase::ClickLeave { .. } => Action::ClickDetected { smooth: true, offset_y: 0 },
        LobbyPhase::FindPlayAgain { round } => Action::Detect(
            if round > 0 {
                Probe::PlayTab
            } else {
                Probe::PlayTabFast
            },
        ),
        LobbyPhase::ClickPlayAgain { .. } => Action::ClickDetected { smooth: true, offset_y: 0 },
        LobbyPhase::Minimize => Action::Keys(KeyStroke::ShowDesktop),
        LobbyPhase::FindStop => Action::Detect(Probe::StopGame),
        LobbyPhase::ClickStop => Action::ClickDetected { smooth: false, offset_y: 0 },
        LobbyPhase::FindConfirm => Action::Detect(Probe::CloseGameOk),
        LobbyPhase::ClickConfirm => Action::ClickDetected { smooth: false, offset_y: 0 },
        LobbyPhase::Restart => Action::RestartGame,
        LobbyPhase::Done(o) => Action::Finish(o),
    }
}

/// The way back to the lobby.
pub struct LobbyReturn {
    pub phase: LobbyPhase,
}

fn round_after(round: u8) -> (p: LobbyPhase)
    ensures
        p == after_round(round),
{
    if round == 0 {
        LobbyPhase::PressEscape { round: 1 }
    } else {
        LobbyPhase::Minimize
    }
}

fn clicked_ok(e: &Event) -> (b: bool)
    ensures
        b == (*e == Event::Clicked(true)),
{
    match e {
        Event::Clicked(b) => *b,
        _ => false,
    }
}

/// Going back to the lobby.
pub fn return_to_lobby() -> (r: LobbyReturn)
    ensures
        r.phase == LobbyPhase::Start,
{
    LobbyReturn { phase: LobbyPhase::Start }
}

impl LobbyReturn {
    /// Moves on by one step: takes what the host observed of the last action
    /// and returns the next action.
    pub fn step(&mut self, e: &Event) -> (a: Action)
        ensures
            final(self).phase == lobby_next(old(self).phase, *e),
            a == lobby_entry(final(self).phase),
    {
        let p = self.next_phase(e);
        self.phase = p;
        entry(p)
    }

    fn next_phase(&self, e: &Event) -> (p: LobbyPhase)
        ensures
            p == lobby_next(self.phase, *e),
    {
        if matches!(e, Event::Panicked) && !matches!(self.phase, LobbyPhase::Done(_)) {
            return LobbyPhase::Done(Outcome::Failed(Note::Panicked));
        }
        let ran = output_text(e).is_some();
        let saw = event_saw(e);
        let clicked = clicked_ok(e);
        let panicked = LobbyPhase::Done(Outcome::Failed(Note::Panicked));
        match self.phase {
            LobbyPhase::Start => LobbyPhase::CheckInPlay,
            LobbyPhase::CheckInPlay => if !ran {
                panicked
            } else if saw {
                LobbyPhase::Done(Outcome::Completed)
            } else {
                LobbyPhase::FindPlayTab
            },
            LobbyPhase::FindPlayTab => if !ran {
                panicked
            } else if saw {
                LobbyPhase::ClickPlayTab
            } else {
                LobbyPhase::PressEscape { round: 0 }
            },
            LobbyPhase::ClickPlayTab => if clicked {
                LobbyPhase::Done(Outcome::Completed)
            } else {
                LobbyPhase::PressEscape { round: 0 }
            },
            LobbyPhase::PressEscape { round } => LobbyPhase::FindLeave { round },
            LobbyPhase::FindLeave { round } => if !ran {
                panicked
            } else if saw {
                LobbyPhase::ClickLeave { round }
            } else {
                LobbyPhase::FindPlayAgain { round }
            },
            LobbyPhase::ClickLeave { round } => LobbyPhase::FindPlayAgain { round },
            LobbyPhase::FindPlayAgain { round } => if !ran {
                panicked
            } else if saw {
                LobbyPhase::ClickPlayAgain { round }
            } else {
                round_after(round)
            },
            LobbyPhase::ClickPlayAgain { round } => if clicked {
                LobbyPhase::Done(Outcome::Completed)
            } else {
                round_after(round)
            },
            LobbyPhase::Minimize => LobbyPhase::FindStop,
            LobbyPhase::FindStop => if !ran {
                panicked
            } else if saw {
                LobbyPhase::ClickStop
            } else {
                LobbyPhase::Restart
            },
            LobbyPhase::ClickStop => if clicked {
                LobbyPhase::FindConfirm
            } else {
                LobbyPhase::Restart
            },
            LobbyPhase::FindConfirm => if !ran {
                panicked
            } else if saw {
                LobbyPhase::ClickConfirm
            } else {
                LobbyPhase::Restart
            },
            LobbyPhase::ClickConfirm => LobbyPhase::Restart,
            LobbyPhase::Restart => LobbyPhase::Done(Outcome::Completed),
            LobbyPhase::Done(o) => LobbyPhase::Done(o),
        }
    }
}

fn entry(p: LobbyPhase) -> (a: Action)
    ensures
        a == lobby_entry(p),
{
    match p {
        LobbyPhase::Start => Action::Pause(0),
        LobbyPhase::CheckInPlay => Action::Detect(Probe::InPlayTab),
        LobbyPhase::FindPlayTab => Action::Detect(Probe::PlayTab),
        LobbyPhase::ClickPlayTab => Action::ClickDetected { smooth: true, offset_y: 0 },
        LobbyPhase::PressEscape { .. } => Action::Keys(KeyStroke::Escape),
        LobbyPhase::FindLeave { .. } => Action::Detect(Probe::LeavePost),
        LobbyPhase::ClickLeave { .. } => Action::ClickDetected { smooth: true, offset_y: 0 },
        LobbyPhase::FindPlayAgain { round } => Action::Detect(
            if round > 0 {
                Probe::PlayTab
            } else {
                Probe::PlayTabFast
            },
        ),
        LobbyPhase::ClickPlayAgain { .. } => Action::ClickDetected { smooth: true, offset_y: 0 },
        LobbyPhase::Minimize => Action::Keys(KeyStroke::ShowDesktop),
        LobbyPhase::FindStop => Action::Detect(Probe::StopGame),
        LobbyPhase::ClickStop => Action::ClickDetected { smooth: false, offset_y: 0 },
        LobbyPhase::FindConfirm => Action::Detect(Probe::CloseGameOk),
        LobbyPhase::ClickConfirm => Action::ClickDetected { smooth: false, offset_y: 0 },
        LobbyPhase::Restart => Action::RestartGame,
        LobbyPhase::Done(o) => Action::Finish(o),
    }
}

/// Whether every round of leaving is the first or the second.
pub open spec fn rounds_ok(p: LobbyPhase) -> bool {
    match p {
        LobbyPhase::PressEscape { round } | LobbyPhase::FindLeave { round } | LobbyPhase::ClickLeave {
            round,
        } | LobbyPhase::FindPlayAgain { round } | LobbyPhase::ClickPlayAgain { round } => round <= 1,
        _ => true,
    }
}

/// The way back to the lobby tries at most two rounds of leaving before it
/// stops and restarts the game: every step keeps the rounds to the first
/// and the second.
pub proof fn lemma_lobby_two_rounds(p: LobbyPhase, e: Event)
    requires
        rounds_ok(p),
    ensures
        rounds_ok(lobby_next(p, e)),
{
}

/// Whether a phase looks for a button that the bot clicks once seen.
pub open spec fn looks_for_button(p: LobbyPhase) -> bool {
    p is FindPlayTab || p is FindLeave || p is FindPlayAgain || p is FindStop || p is FindConfirm
}

/// On the way back to the lobby the bot clicks exactly where a detector saw
/// the button it looked for: the next action clicks a detected region if
/// and only if the phase looked for a button and the detector saw it.
pub proof fn lemma_lobby_clicks_what_it_sees(p: LobbyPhase, e: Event)
    ensures
        (lobby_entry(lobby_next(p, e)) is ClickDetected) == (looks_for_button(p) && saw(e)),
{
}

/// When the trading post's leave button is seen, the bot clicks it, and
/// then looks for the play tab again in the same round.
pub proof fn lemma_lobby_leaves_post(round: u8, e: Event)
    requires
        saw(e),
    ensures
        lobby_next((LobbyPhase::FindLeave { round }), e) == (LobbyPhase::ClickLeave { round }),
        lobby_entry((LobbyPhase::ClickLeave { round })) == (Action::ClickDetected {
            smooth: true,
            offset_y: 0,
        }),
        lobby_next((LobbyPhase::ClickLeave { round }), Event::Go) == (LobbyPhase::FindPlayAgain {
            round,
        }),
{
}

} // verus!
