//! Collecting the trade fee: once the bot is ready, trade with the player,
//! check that the fee is in the trade, look at the items, accept, and record
//! the fee as paid.

use vstd::prelude::*;
use crate::flows::common::{
    Action, Event, LineStyle, Note, Outcome, Probe, Store, event_saw, output_text, printed, ran, saw,
};
use crate::traders::ReadyState;

verus! {

/// Where the collection of a fee stands.
#[derive(PartialEq, Eq, Structural, Clone, Copy, Debug)]
pub enum FeePhase {
    Start,
    CheckReady,
    Launching,
    Waiting,
    Requesting,
    FindFee,
    FindCheckbox,
    ClickCheckbox,
    FindDoubleCheck,
    Inspect,
    InspectLines,
    FindFinal,
    ClickFinal,
    SaveFee,
    MarkFee,
    /// Back to the lobby after success.
    Succeeding,
    /// Back to the lobby inside the procedure, before failing.
    Leaving(Note),
    /// Back to the lobby again, as the procedure fails.
    Closing(Note),
    Done(Outcome),
}

/// The next phase after the bot's readiness was read.
pub open spec fn after_ready(e: Event, go: FeePhase) -> FeePhase {
    match e {
        Event::Ready(ReadyState::True) => go,
        Event::Ready(ReadyState::False) => FeePhase::Launching,
        Event::Ready(ReadyState::Starting) => FeePhase::Waiting,
        _ => FeePhase::CheckReady,
    }
}

/// The next phase of collecting a fee.
pub open spec fn fee_next(p: FeePhase, e: Event) -> FeePhase {
    if e is Panicked && !(p is Done) {
        if p is Closing {
            FeePhase::Done(Outcome::Failed(Note::Panicked))
        } else {
            FeePhase::Closing(Note::Panicked)
        }
    } else {
        match p {
            FeePhase::Start => FeePhase::CheckReady,
            FeePhase::CheckReady => after_ready(e, FeePhase::Requesting),
            FeePhase::Launching => FeePhase::CheckReady,
            FeePhase::Waiting => FeePhase::CheckReady,
            FeePhase::Requesting => match e {
                Event::Requested(Some(true)) => FeePhase::FindFee,
                Event::Requested(Some(false)) => FeePhase::Leaving(Note::PlayerDeclined),
                _ => FeePhase::Closing(Note::Panicked),
            },
            FeePhase::FindFee => if saw(e) {
                FeePhase::FindCheckbox
            } else {
                FeePhase::Leaving(Note::FeeMissing)
            },
            FeePhase::FindCheckbox => if ran(e) {
                FeePhase::ClickCheckbox
            } else {
                FeePhase::Closing(Note::Panicked)
            },
            FeePhase::ClickCheckbox => FeePhase::FindDoubleCheck,
            FeePhase::FindDoubleCheck => if saw(e) {
                FeePhase::Inspect
            } else {
                FeePhase::Leaving(Note::FeeMissing)
            },
            FeePhase::Inspect => if ran(e) {
                FeePhase::InspectLines
            } else {
                FeePhase::Closing(Note::Panicked)
            },
            FeePhase::InspectLines => FeePhase::FindFinal,
            FeePhase::FindFinal => if ran(e) {
                FeePhase::ClickFinal
            } else {
                FeePhase::Closing(Note::Panicked)
            },
            FeePhase::ClickFinal => FeePhase::SaveFee,
            FeePhase::SaveFee => if e == Event::Stored(true) {
                FeePhase::MarkFee
            } else {
                FeePhase::Leaving(Note::FeeNotRecorded)
            },
            FeePhase::MarkFee => FeePhase::Succeeding,
            FeePhase::Succeeding => FeePhase::Done(Outcome::Succeeded(Note::FeeCollected)),
            FeePhase::Leaving(n) => FeePhase::Closing(n),
            FeePhase::Closing(n) => FeePhase::Done(Outcome::Failed(n)),
            FeePhase::Done(o) => FeePhase::Done(o),
        }
    }
}

/// The collection of the fee of a trader: their in-game name, Discord id and
/// trade channel.
pub struct FeeCollection {
    pub phase: FeePhase,
    pub in_game_id: String,
    pub discord_id: String,
    pub channel: String,
}

/// The action that starts a phase of collecting the fee of `m`, given the
/// event that led there.
pub open spec fn fee_entry(m: FeeCollection, p: FeePhase, e: Event, a: Action) -> bool {
    match p {
        FeePhase::Start => a == Action::Pause(0),
        FeePhase::CheckReady => a == Action::CheckReady,
        FeePhase::Launching => a == Action::LaunchGame,
        FeePhase::Waiting => a == Action::Pause(2000),
        FeePhase::Requesting => a matches Action::SendTradeRequest(s) && s@ == m.in_game_id@,
        FeePhase::FindFee => a == Action::Detect(Probe::GoldFee),
        FeePhase::FindCheckbox => a == Action::Detect(Probe::TradeCheckbox),
        FeePhase::ClickCheckbox => a == Action::ClickDetected { smooth: true, offset_y: 0 },
        FeePhase::FindDoubleCheck => a == Action::Detect(Probe::GoldFeeDoubleCheck),
        FeePhase::Inspect => a == Action::Detect(Probe::InspectItems),
        FeePhase::InspectLines => a matches Action::ActOnLines { output, style } && printed(e)
            == Some(output@) && style == (LineStyle::Inspect { minimize: false }),
        FeePhase::FindFinal => a == Action::Detect(Probe::TradeCheckbox),
        FeePhase::ClickFinal => a == Action::ClickDetected { smooth: true, offset_y: 0 },
        FeePhase::SaveFee => a matches Action::Ask(Store::SetFeePaid { channel, discord })
            && channel@ == m.channel@ && discord@ == m.discord_id@,
        FeePhase::MarkFee => a matches Action::MarkFeePaid { discord, channel } && discord@
            == m.discord_id@ && channel@ == m.channel@,
        FeePhase::Succeeding => a is ReturnToLobby,
        FeePhase::Leaving(_) => a is ReturnToLobby,
        FeePhase::Closing(_) => a is ReturnToLobby,
        FeePhase::Done(o) => a == Action::Finish(o),
    }
}

fn ready_phase(e: &Event, go: FeePhase) -> (p: FeePhase)
    ensures
        p == after_ready(*e, go),
{
    match e {
        Event::Ready(ReadyState::True) => go,
        Event::Ready(ReadyState::False) => FeePhase::Launching,
        Event::Ready(ReadyState::Starting) => FeePhase::Waiting,
        _ => FeePhase::CheckReady,
    }
}

/// Collecting the fee of the player `in_game_id`, the Discord user
/// `discord_id` in the trade channel `discord_channel_id`.
pub fn collect_gold_fee(in_game_id: &str, discord_id: &str, discord_channel_id: &str) -> (r: FeeCollection)
    ensures
        r.phase == FeePhase::Start,
        r.in_game_id@ == in_game_id@,
        r.discord_id@ == discord_id@,
        r.channel@ == discord_channel_id@,
{
    FeeCollection {
        phase: FeePhase::Start,
        in_game_id: in_game_id.to_owned(),
        discord_id: discord_id.to_owned(),
        channel: discord_channel_id.to_owned(),
    }
}

impl FeeCollection {
    fn next_phase(&self, e: &Event) -> (p: FeePhase)
        ensures
            p == fee_next(self.phase, *e),
    {
        if matches!(e, Event::Panicked) && !matches!(self.phase, FeePhase::Done(_)) {
            if matches!(self.phase, FeePhase::Closing(_)) {
                return FeePhase::Done(Outcome::Failed(Note::Panicked));
            } else {
                return FeePhase::Closing(Note::Panicked);
            }
        }
        let ran = output_text(e).is_some();
        let saw = event_saw(e);
        match self.phase {
            FeePhase::Start => FeePhase::CheckReady,
            FeePhase::CheckReady => ready_phase(e, FeePhase::Requesting),
            FeePhase::Launching => FeePhase::CheckReady,
            FeePhase::Waiting => FeePhase::CheckReady,
            FeePhase::Requesting => match e {
                Event::Requested(Some(true)) => FeePhase::FindFee,
                Event::Requested(Some(false)) => FeePhase::Leaving(Note::PlayerDeclined),
                _ => FeePhase::Closing(Note::Panicked),
            },
            FeePhase::FindFee => if saw {
                FeePhase::FindCheckbox
            } else {
                FeePhase::Leaving(Note::FeeMissing)
            },
            FeePhase::FindCheckbox => if ran {
                FeePhase::ClickCheckbox
            } else {
                FeePhase::Closing(Note::Panicked)
            },
            FeePhase::ClickCheckbox => FeePhase::FindDoubleCheck,
            FeePhase::FindDoubleCheck => if saw {
                FeePhase::Inspect
            } else {
                FeePhase::Leaving(Note::FeeMissing)
            },
            FeePhase::Inspect => if ran {
                FeePhase::InspectLines
            } else {
                FeePhase::Closing(Note::Panicked)
            },
            FeePhase::InspectLines => FeePhase::FindFinal,
            FeePhase::FindFinal => if ran {
                FeePhase::ClickFinal
            } else {
                FeePhase::Closing(Note::Panicked)
            },
            FeePhase::ClickFinal => FeePhase::SaveFee,
            FeePhase::SaveFee => if matches!(e, Event::Stored(true)) {
                FeePhase::MarkFee
            } else {
                FeePhase::Leaving(Note::FeeNotRecorded)
            },
            FeePhase::MarkFee => FeePhase::Succeeding,
            FeePhase::Succeeding => FeePhase::Done(Outcome::Succeeded(Note::FeeCollected)),
            FeePhase::Leaving(n) => FeePhase::Closing(n),
            FeePhase::Closing(n) => FeePhase::Done(Outcome::Failed(n)),
            FeePhase::Done(o) => FeePhase::Done(o),
        }
    }

    fn entry(&self, p: FeePhase, e: &Event) -> (a: Action)
        requires
            p == fee_next(self.phase, *e),
        ensures
            fee_entry(*self, p, *e, a),
    {
        match p {
            FeePhase::Start => Action::Pause(0),
            FeePhase::CheckReady => Action::CheckReady,
            FeePhase::Launching => Action::LaunchGame,
            FeePhase::Waiting => Action::Pause(2000),
            FeePhase::Requesting => Action::SendTradeRequest(self.in_game_id.clone()),
            FeePhase::FindFee => Action::Detect(Probe::GoldFee),
            FeePhase::FindCheckbox => Action::Detect(Probe::TradeCheckbox),
            FeePhase::ClickCheckbox => Action::ClickDetected { smooth: true, offset_y: 0 },
            FeePhase::FindDoubleCheck => Action::Detect(Probe::GoldFeeDoubleCheck),
            FeePhase::Inspect => Action::Detect(Probe::InspectItems),
            FeePhase::InspectLines => {
                let out = match output_text(e) {
                    Some(s) => s.clone(),
                    None => String::new(),
                };
                Action::ActOnLines { output: out, style: LineStyle::Inspect { minimize: false } }
            },
            FeePhase::FindFinal => Action::Detect(Probe::TradeCheckbox),
            FeePhase::ClickFinal => Action::ClickDetected { smooth: true, offset_y: 0 },
            FeePhase::SaveFee => Action::Ask(
                Store::SetFeePaid { channel: self.channel.clone(), discord: self.discord_id.clone() },
            ),
            FeePhase::MarkFee => Action::MarkFeePaid {
                discord: self.discord_id.clone(),
                channel: self.channel.clone(),
            },
            FeePhase::Succeeding => Action::ReturnToLobby,
            FeePhase::Leaving(_) => Action::ReturnToLobby,
            FeePhase::Closing(_) => Action::ReturnToLobby,
            FeePhase::Done(o) => Action::Finish(o),
        }
    }

    /// Moves on by one step: takes what the host observed of the last action
    /// and returns the next action.
    pub fn step(&mut self, e: &Event) -> (a: Action)
        ensures
            final(self).phase == fee_next(old(self).phase, *e),
            final(self).in_game_id == old(self).in_game_id,
            final(self).discord_id == old(self).discord_id,
            final(self).channel == old(self).channel,
            fee_entry(*final(self), final(self).phase, *e, a),
    {
        let p = self.next_phase(e);
        let a = self.entry(p, e);
        self.phase = p;
        a
    }
}

/// The fee is recorded as paid only right after the bot accepted the trade.
pub proof fn lemma_fee_recorded_after_accepting(p: FeePhase, e: Event)
    ensures
        fee_next(p, e) == FeePhase::SaveFee ==> p == FeePhase::ClickFinal,
{
}

/// Collecting a fee succeeds only where the fee was found in the trade, and
/// its status was stored, before the trader is marked as paid.
pub proof fn lemma_fee_success_needs_fee(p: FeePhase, e: Event)
    ensures
        fee_next(p, e) == FeePhase::FindCheckbox ==> p == FeePhase::FindFee && saw(e),
        fee_next(p, e) == FeePhase::Inspect ==> p == FeePhase::FindDoubleCheck && saw(e),
        fee_next(p, e) == FeePhase::MarkFee ==> p == FeePhase::SaveFee && e == Event::Stored(true),
{
}

/// Collecting a fee ends only right after going back to the lobby.
pub proof fn lemma_fee_ends_from_lobby(p: FeePhase, e: Event)
    ensures
        fee_next(p, e) is Done && !(p is Done) ==> p is Closing || p is Succeeding,
{
}

/// At the readiness check a fee collection launches the game where it is
/// not running, waits where it is starting, and goes on to the trade request
/// where it is ready.
pub proof fn lemma_fee_readiness(m: FeeCollection, e: Event, a: Action)
    ensures
        e == Event::Ready(ReadyState::False) ==> fee_next(FeePhase::CheckReady, e)
            == FeePhase::Launching && (fee_entry(m, fee_next(FeePhase::CheckReady, e), e, a)
            <==> a == Action::LaunchGame),
        e == Event::Ready(ReadyState::Starting) ==> fee_next(FeePhase::CheckReady, e)
            == FeePhase::Waiting && (fee_entry(m, fee_next(FeePhase::CheckReady, e), e, a)
            <==> a == Action::Pause(2000)),
        e == Event::Ready(ReadyState::True) ==> fee_next(FeePhase::CheckReady, e)
            == FeePhase::Requesting,
        fee_next(FeePhase::Launching, e) == FeePhase::CheckReady || e is Panicked,
{
}

} // verus!
