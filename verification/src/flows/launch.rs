//! Opening the game and going to its lobby: start the launcher if asked,
//! update the game if the launcher asks for it, press play, confirm the
//! start screen and enter the lobby.

use vstd::prelude::*;
use crate::flows::common::{Action, Event, Note, Outcome, Probe, ReadyFlag, event_saw, output_text, printed, saw};
use crate::pointer::KeyStroke;

verus! {

/// Where the opening of the game stands.
#[derive(PartialEq, Eq, Structural, Clone, Copy, Debug)]
pub enum LaunchPhase {
    Start,
    MarkStarting,
    ShowDesktop,
    OpenSearch,
    WaitSearch,
    TypeLauncher,
    WaitLauncher,
    OpenLauncher,
    FindUpdate,
    ClickUpdate,
    FindPlay,
    ClickPlay,
    FindOk,
    ClickOk,
    FindEnter,
    ClickEnter,
    MarkReady,
    Done(Outcome),
}

/// Whether the update detector found the update button: its output is not
/// `Could not detect`.
pub open spec fn update_offered(e: Event) -> bool {
    saw(e)
}

fn event_update_offered(e: &Event) -> (b: bool)
    ensures
        b == update_offered(*e),
{
    event_saw(e)
}

/// The phase after the bot's state is marked as starting.
pub open spec fn after_mark(start_launcher: bool) -> LaunchPhase {
    if start_launcher {
        LaunchPhase::ShowDesktop
    } else {
        LaunchPhase::FindUpdate
    }
}

/// The next phase of opening the game. `sets_state` tells whether this run
/// keeps the bot's readiness up to date.
pub open spec fn launch_next(p: LaunchPhase, sets_state: bool, start_launcher: bool, e: Event) -> LaunchPhase {
    let panicked = LaunchPhase::Done(Outcome::Failed(Note::Panicked));
    if e is Panicked && !(p is Done) {
        panicked
    } else {
        match p {
            LaunchPhase::Start => if sets_state {
                LaunchPhase::MarkStarting
            } else {
                after_mark(start_launcher)
            },
            LaunchPhase::MarkStarting => after_mark(start_launcher),
            LaunchPhase::ShowDesktop => LaunchPhase::OpenSearch,
            LaunchPhase::OpenSearch => LaunchPhase::WaitSearch,
            LaunchPhase::WaitSearch => LaunchPhase::TypeLauncher,
            LaunchPhase::TypeLauncher => LaunchPhase::WaitLauncher,
            LaunchPhase::WaitLauncher => LaunchPhase::OpenLauncher,
            LaunchPhase::OpenLauncher => LaunchPhase::FindUpdate,
            LaunchPhase::FindUpdate => if printed(e) is None {
                panicked
            } else if update_offered(e) {
                LaunchPhase::ClickUpdate
            } else {
                LaunchPhase::FindPlay
            },
            LaunchPhase::ClickUpdate => LaunchPhase::FindPlay,
            LaunchPhase::FindPlay => if printed(e) is None {
                panicked
            } else {
                LaunchPhase::ClickPlay
            },
            LaunchPhase::ClickPlay => LaunchPhase::FindOk,
            LaunchPhase::FindOk => if printed(e) is None {
                panicked
            } else {
                LaunchPhase::ClickOk
            },
            LaunchPhase::ClickOk => LaunchPhase::FindEnter,
            LaunchPhase::FindEnter => if printed(e) is None {
                panicked
            } else {
                LaunchPhase::ClickEnter
            },
            LaunchPhase::ClickEnter => if sets_state {
                LaunchPhase::MarkReady
            } else {
                LaunchPhase::Done(Outcome::Completed)
            },
            LaunchPhase::MarkReady => LaunchPhase::Done(Outcome::Completed),
            LaunchPhase::Done(o) => LaunchPhase::Done(o),
        }
    }
}

/// The action that starts a phase of opening the game.
pub open spec fn launch_entry(p: LaunchPhase, sets_state: bool, a: Action) -> bool {
    match p {
        LaunchPhase::Start => a == Action::Pause(0),
        LaunchPhase::MarkStarting => a == Action::SetReady(ReadyFlag::Starting),
        LaunchPhase::ShowDesktop => a == Action::Keys(KeyStroke::ShowDesktop),
        LaunchPhase::OpenSearch => a == Action::Keys(KeyStroke::Windows),
        LaunchPhase::WaitSearch => a == Action::Pause(1000),
        LaunchPhase::TypeLauncher => a matches Action::TypeText(s) && s@ == "blacksmith"@,
        LaunchPhase::WaitLauncher => a == Action::Pause(2000),
        LaunchPhase::OpenLauncher => a == Action::Keys(KeyStroke::Enter),
        LaunchPhase::FindUpdate => a == Action::Detect(Probe::Update),
        LaunchPhase::ClickUpdate => a == Action::ClickDetected { smooth: false, offset_y: 0 },
        LaunchPhase::FindPlay => a == Action::Detect(
            if sets_state {
                Probe::LauncherPlay
            } else {
                Probe::LauncherPlayFast
            },
        ),
        LaunchPhase::ClickPlay => a == Action::ClickDetected { smooth: false, offset_y: 0 },
        LaunchPhase::FindOk => a == Action::Detect(Probe::OkayStart),
        LaunchPhase::ClickOk => a == Action::ClickDetected { smooth: true, offset_y: 0 },
        LaunchPhase::FindEnter => a == Action::Detect(Probe::EnterLobby),
        LaunchPhase::ClickEnter => a == Action::ClickDetected { smooth: true, offset_y: 0 },
        LaunchPhase::MarkReady => a == Action::SetReady(ReadyFlag::Ready),
        LaunchPhase::Done(o) => a == Action::Finish(o),
    }
}

/// Opening the game. With `sets_state`, the bot is marked as starting at
/// first and as ready (named `Middleman2`) at the end; with `start_launcher`,
/// the launcher is started first.
pub struct GameLaunch {
    pub phase: LaunchPhase,
    pub sets_state: bool,
    pub start_launcher: bool,
}

/// Opening the game and going to its lobby, marking the bot as starting
/// and then as ready; with `start_launcher`, the launcher is started first.
pub fn open_game_go_to_lobby(start_launcher: bool) -> (r: GameLaunch)
    ensures
        r.phase == LaunchPhase::Start,
        r.sets_state,
        r.start_launcher == start_launcher,
{
    GameLaunch { phase: LaunchPhase::Start, sets_state: true, start_launcher }
}

/// Opening the game and going to its lobby without touching the bot's
/// readiness (as when the game is restarted on the way back to the lobby).
pub fn open_game_go_to_lobby_no_state_change(start_launcher: bool) -> (r: GameLaunch)
    ensures
        r.phase == LaunchPhase::Start,
        !r.sets_state,
        r.start_launcher == start_launcher,
{
    GameLaunch { phase: LaunchPhase::Start, sets_state: false, start_launcher }
}

impl GameLaunch {
    fn next_phase(&self, e: &Event) -> (p: LaunchPhase)
        ensures
            p == launch_next(self.phase, self.sets_state, self.start_launcher, *e),
    {
        let panicked = LaunchPhase::Done(Outcome::Failed(Note::Panicked));
        if matches!(e, Event::Panicked) && !matches!(self.phase, LaunchPhase::Done(_)) {
            return panicked;
        }
        let ran = output_text(e).is_some();
        let after = if self.start_launcher {
            LaunchPhase::ShowDesktop
        } else {
            LaunchPhase::FindUpdate
        };
        match self.phase {
            LaunchPhase::Start => if self.sets_state {
                LaunchPhase::MarkStarting
            } else {
                after
            },
            LaunchPhase::MarkStarting => after,
            LaunchPhase::ShowDesktop => LaunchPhase::OpenSearch,
            LaunchPhase::OpenSearch => LaunchPhase::WaitSearch,
            LaunchPhase::WaitSearch => LaunchPhase::TypeLauncher,
            LaunchPhase::TypeLauncher => LaunchPhase::WaitLauncher,
            LaunchPhase::WaitLauncher => LaunchPhase::OpenLauncher,
            LaunchPhase::OpenLauncher => LaunchPhase::FindUpdate,
            LaunchPhase::FindUpdate => if !ran {
                panicked
            } else if event_update_offered(e) {
                LaunchPhase::ClickUpdate
            } else {
                LaunchPhase::FindPlay
            },
            LaunchPhase::ClickUpdate => LaunchPhase::FindPlay,
            LaunchPhase::FindPlay => if !ran {
                panicked
            } else {
                LaunchPhase::ClickPlay
            },
            LaunchPhase::ClickPlay => LaunchPhase::FindOk,
            LaunchPhase::FindOk => if !ran {
                panicked
            } else {
                LaunchPhase::ClickOk
            },
            LaunchPhase::ClickOk => LaunchPhase::FindEnter,
            LaunchPhase::FindEnter => if !ran {
                panicked
            } else {
                LaunchPhase::ClickEnter
            },
            LaunchPhase::ClickEnter => if self.sets_state {
                LaunchPhase::MarkReady
            } else {
                LaunchPhase::Done(Outcome::Completed)
            },
            LaunchPhase::MarkReady => LaunchPhase::Done(Outcome::Completed),
            LaunchPhase::Done(o) => LaunchPhase::Done(o),
        }
    }

    fn entry(&self, p: LaunchPhase) -> (a: Action)
        ensures
            launch_entry(p, self.sets_state, a),
    {
        match p {
            LaunchPhase::Start => Action::Pause(0),
            LaunchPhase::MarkStarting => Action::SetReady(ReadyFlag::Starting),
            LaunchPhase::ShowDesktop => Action::Keys(KeyStroke::ShowDesktop),
            LaunchPhase::OpenSearch => Action::Keys(KeyStroke::Windows),
            LaunchPhase::WaitSearch => Action::Pause(1000),
            LaunchPhase::TypeLauncher => Action::TypeText("blacksmith".to_owned()),
            LaunchPhase::WaitLauncher => Action::Pause(2000),
            LaunchPhase::OpenLauncher => Action::Keys(KeyStroke::Enter),
            LaunchPhase::FindUpdate => Action::Detect(Probe::Update),
            LaunchPhase::ClickUpdate => Action::ClickDetected { smooth: false, offset_y: 0 },
            LaunchPhase::FindPlay => Action::Detect(
                if self.sets_state {
                    Probe::LauncherPlay
                } else {
                    Probe::LauncherPlayFast
                },
            ),
            LaunchPhase::ClickPlay => Action::ClickDetected { smooth: false, offset_y: 0 },
            LaunchPhase::FindOk => Action::Detect(Probe::OkayStart),
            LaunchPhase::ClickOk => Action::ClickDetected { smooth: true, offset_y: 0 },
            LaunchPhase::FindEnter => Action::Detect(Probe::EnterLobby),
            LaunchPhase::ClickEnter => Action::ClickDetected { smooth: true, offset_y: 0 },
            LaunchPhase::MarkReady => Action::SetReady(ReadyFlag::Ready),
            LaunchPhase::Done(o) => Action::Finish(o),
        }
    }

    /// Moves on by one step: takes what the host observed of the last action
    /// and returns the next action.
    pub fn step(&mut self, e: &Event) -> (a: Action)
        ensures
            final(self).phase == launch_next(
                old(self).phase,
                old(self).sets_state,
                old(self).start_launcher,
                *e,
            ),
            final(self).sets_state == old(self).sets_state,
            final(self).start_launcher == old(self).start_launcher,
            launch_entry(final(self).phase, old(self).sets_state, a),
    {
        let p = self.next_phase(e);
        self.phase = p;
        self.entry(p)
    }
}

/// Opening the game that keeps the bot's readiness up to date ends only
/// right after marking the bot as ready.
pub proof fn lemma_launch_ends_ready(p: LaunchPhase, start_launcher: bool, e: Event)
    ensures
        launch_next(p, true, start_launcher, e) == LaunchPhase::Done(Outcome::Completed) && !(p is Done)
            ==> p == LaunchPhase::MarkReady,
{
}

/// Without `start_launcher`, the launcher is not opened again: the run goes
/// straight to the update check.
pub proof fn lemma_launch_skips_launcher(sets_state: bool, e: Event)
    requires
        !(e is Panicked),
    ensures
        launch_next(
            if sets_state {
                LaunchPhase::MarkStarting
            } else {
                LaunchPhase::Start
            },
            sets_state,
            false,
            e,
        ) == LaunchPhase::FindUpdate,
{
}

/// A run that leaves the readiness alone goes through the same steps as one
/// that keeps it up to date, but for the two steps that set the readiness:
/// from any other phase both go to the same next phase and start it with
/// the same action (save that the play button is looked for with the
/// quicker detector).
pub proof fn lemma_launch_same_inputs(p: LaunchPhase, start_launcher: bool, e: Event, a: Action)
    requires
        !(p is Start || p is MarkStarting || p is ClickEnter || p is MarkReady),
    ensures
        launch_next(p, true, start_launcher, e) == launch_next(p, false, start_launcher, e),
        !(p is FindPlay) ==> (launch_entry(p, true, a) <==> launch_entry(p, false, a)),
{
}

/// The steps that set the readiness are the only ones a run that leaves it
/// alone skips: its start goes where the other run goes after marking the
/// bot as starting, and its last click ends where the other run ends after
/// marking the bot as ready.
pub proof fn lemma_launch_skips_only_readiness(start_launcher: bool, e: Event)
    requires
        !(e is Panicked),
    ensures
        launch_next(LaunchPhase::Start, false, start_launcher, e) == launch_next(
            LaunchPhase::MarkStarting,
            true,
            start_launcher,
            e,
        ),
        launch_next(LaunchPhase::Start, true, start_launcher, e) == LaunchPhase::MarkStarting,
        launch_next(LaunchPhase::ClickEnter, false, start_launcher, e) == launch_next(
            LaunchPhase::MarkReady,
            true,
            start_launcher,
            e,
        ),
        launch_next(LaunchPhase::ClickEnter, true, start_launcher, e) == LaunchPhase::MarkReady,
{
}

/// Whether a phase is one of the two steps that set the bot's readiness.
pub open spec fn sets_readiness(p: LaunchPhase) -> bool {
    p is MarkStarting || p is MarkReady
}

/// The phases that a run keeping the readiness up to date goes through from
/// `p`: the steps other than the readiness steps are answered by `es` in
/// turn, and each readiness step by `ack`.
pub open spec fn run_with_state(p: LaunchPhase, start_launcher: bool, es: Seq<Event>, ack: Event) -> Seq<LaunchPhase>
    decreases es.len(),
{
    if es.len() == 0 {
        Seq::empty()
    } else {
        let q = launch_next(p, true, start_launcher, es[0]);
        if sets_readiness(q) {
            let r = launch_next(q, true, start_launcher, ack);
            seq![q, r] + run_with_state(r, start_launcher, es.drop_first(), ack)
        } else {
            seq![q] + run_with_state(q, start_launcher, es.drop_first(), ack)
        }
    }
}

/// The phases that a run leaving the readiness alone goes through from `p`,
/// its steps answered by `es` in turn.
pub open spec fn run_without_state(p: LaunchPhase, start_launcher: bool, es: Seq<Event>) -> Seq<LaunchPhase>
    decreases es.len(),
{
    if es.len() == 0 {
        Seq::empty()
    } else {
        let q = launch_next(p, false, start_launcher, es[0]);
        seq![q] + run_without_state(q, start_launcher, es.drop_first())
    }
}

/// The phases of a run without its readiness steps.
pub open spec fn without_readiness(ps: Seq<LaunchPhase>) -> Seq<LaunchPhase>
    decreases ps.len(),
{
    if ps.len() == 0 {
        Seq::empty()
    } else if sets_readiness(ps[0]) {
        without_readiness(ps.drop_first())
    } else {
        seq![ps[0]] + without_readiness(ps.drop_first())
    }
}

proof fn lemma_without_readiness_front(a: LaunchPhase, rest: Seq<LaunchPhase>)
    ensures
        without_readiness(seq![a] + rest) == if sets_readiness(a) {
            without_readiness(rest)
        } else {
            seq![a] + without_readiness(rest)
        },
{
    let t = seq![a] + rest;
    assert(t.drop_first() =~= rest);
    assert(t[0] == a);
}

proof fn lemma_runs_agree_from(p: LaunchPhase, start_launcher: bool, es: Seq<Event>, ack: Event)
    requires
        !sets_readiness(p),
        !(ack is Panicked),
    ensures
        without_readiness(run_with_state(p, start_launcher, es, ack)) == run_without_state(
            p,
            start_launcher,
            es,
        ),
    decreases es.len(),
{
    if es.len() > 0 {
        let rest = es.drop_first();
        let q = launch_next(p, true, start_launcher, es[0]);
        let q_plain = launch_next(p, false, start_launcher, es[0]);
        if sets_readiness(q) {
            let r = launch_next(q, true, start_launcher, ack);
            assert(r == q_plain);
            lemma_runs_agree_from(r, start_launcher, rest, ack);
            let tail = run_with_state(r, start_launcher, rest, ack);
            assert(seq![q, r] + tail =~= seq![q] + (seq![r] + tail));
            lemma_without_readiness_front(q, seq![r] + tail);
            lemma_without_readiness_front(r, tail);
        } else {
            assert(q == q_plain);
            lemma_runs_agree_from(q, start_launcher, rest, ack);
            lemma_without_readiness_front(q, run_with_state(q, start_launcher, rest, ack));
        }
    }
}

/// A start of the game that leaves the readiness alone sends the same inputs
/// as one that keeps it up to date, over whole runs: fed the same detector
/// outputs and other answers `es`, the run that keeps the readiness goes
/// through the very phases of the other run, with only its two readiness
/// steps added; and every phase of the two runs starts with the same action,
/// save that the play button is looked for with the quicker detector.
pub proof fn lemma_launch_runs_agree(start_launcher: bool, es: Seq<Event>, ack: Event)
    requires
        !(ack is Panicked),
    ensures
        without_readiness(run_with_state(LaunchPhase::Start, start_launcher, es, ack))
            == run_without_state(LaunchPhase::Start, start_launcher, es),
        forall|i: int, a: Action|
            0 <= i < run_without_state(LaunchPhase::Start, start_launcher, es).len() && !(
            run_without_state(LaunchPhase::Start, start_launcher, es)[i] is FindPlay) ==> (
            launch_entry(run_without_state(LaunchPhase::Start, start_launcher, es)[i], true, a)
                <==> #[trigger] launch_entry(
                run_without_state(LaunchPhase::Start, start_launcher, es)[i],
                false,
                a,
            )),
{
    lemma_runs_agree_from(LaunchPhase::Start, start_launcher, es, ack);
}

} // verus!
