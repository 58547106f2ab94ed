use vstd::prelude::*;

use crate::app::{spec_dec_probability, spec_inc_probability, App};
use crate::command::{Action, Command};
use crate::selector::{lemma_sel_step_valid, sel_valid, spec_sel_dec, spec_sel_inc};

verus! {

/// Lifecycle state of a session: exactly one is active at a time.
///
/// `WaitingStart` is the initial state; `Ended` is terminal and reached only
/// when the simulation engine signals that the run is over.
#[derive(Clone, Copy, PartialEq, Eq, Structural, Debug)]
pub enum GameState {
    WaitingStart,
    Running,
    Paused,
    Ended,
}

impl GameState {
    pub fn is_running(&self) -> (r: bool)
        ensures
            r == (*self == GameState::Running),
    {
        *self == GameState::Running
    }

    pub fn is_paused(&self) -> (r: bool)
        ensures
            r == (*self == GameState::Paused),
    {
        *self == GameState::Paused
    }
}

/// The complete transition table of the session, one command at a time.
///
/// Only the start command (from `WaitingStart`) and the pause toggle (between
/// `Running` and `Paused`) change the lifecycle state; quit sets the exit
/// flag from any state; the probability, cursor and overlay commands touch
/// only their own field, in any state. Every other pairing of command and
/// state is a no-op.
pub open spec fn step_spec(pre: App, cmd: Command) -> App {
    match cmd {
        Command::Quit => App { exit: true, ..pre },
        Command::Start => if pre.gamestate == GameState::WaitingStart {
            App { gamestate: GameState::Running, ..pre }
        } else {
            pre
        },
        Command::PauseToggle => if pre.gamestate == GameState::Running {
            App { gamestate: GameState::Paused, ..pre }
        } else if pre.gamestate == GameState::Paused {
            App { gamestate: GameState::Running, ..pre }
        } else {
            pre
        },
        Command::IncreaseProbability => App {
            probability_sunray: spec_inc_probability(pre.probability_sunray),
            ..pre
        },
        Command::DecreaseProbability => App {
            probability_sunray: spec_dec_probability(pre.probability_sunray),
            ..pre
        },
        Command::CursorUp => App {
            planet_id_selector: spec_sel_dec(pre.planet_id_selector, pre.planets_info@.len()),
            ..pre
        },
        Command::CursorDown => App {
            planet_id_selector: spec_sel_inc(pre.planet_id_selector, pre.planets_info@.len()),
            ..pre
        },
        Command::ToggleOverlay => App { show_log_overlay: !pre.show_log_overlay, ..pre },
    }
}

/// The engine call that a transition demands, if any: starting from
/// `WaitingStart` begins the simulation, and a probability change is handed
/// to the engine with the new value.
pub open spec fn step_action(pre: App, cmd: Command) -> Option<Action> {
    match cmd {
        Command::Start => if pre.gamestate == GameState::WaitingStart {
            Some(Action::StartSimulation)
        } else {
            None
        },
        Command::IncreaseProbability => Some(
            Action::SyncProbability(spec_inc_probability(pre.probability_sunray)),
        ),
        Command::DecreaseProbability => Some(
            Action::SyncProbability(spec_dec_probability(pre.probability_sunray)),
        ),
        _ => None,
    }
}

/// Dispatch one decoded input event, or none, through the transition table.
///
/// The caller decodes at most one keyboard event per iteration into `cmd`
/// (key presses only, so held keys do not repeat navigation) and performs
/// the returned engine call, treating a failure of it as fatal.
pub fn handle_game_state(app: &mut App, cmd: Option<Command>) -> (act: Option<Action>)
    ensures
        cmd is None ==> *final(app) == *old(app) && act is None,
        cmd matches Some(c) ==> *final(app) == step_spec(*old(app), c) && act == step_action(
            *old(app),
            c,
        ),
        old(app).wf() ==> final(app).wf(),
{
    let c = match cmd {
        None => { return None; },
        Some(c) => c,
    };
    match (c, app.get_game_state()) {
        (Command::Quit, _) => {
            app.exit = true;
            None
        },
        (Command::Start, GameState::WaitingStart) => {
            app.set_game_state(GameState::Running);
            Some(Action::StartSimulation)
        },
        (Command::PauseToggle, GameState::Running) => {
            app.set_game_state(GameState::Paused);
            None
        },
        (Command::PauseToggle, GameState::Paused) => {
            app.set_game_state(GameState::Running);
            None
        },
        (Command::IncreaseProbability, _) => {
            app.set_sunray_increment();
            Some(Action::SyncProbability(app.probability_sunray))
        },
        (Command::DecreaseProbability, _) => {
            app.set_sunray_decrement();
            Some(Action::SyncProbability(app.probability_sunray))
        },
        (Command::CursorUp, _) => {
            app.decrement_id_selector();
            None
        },
        (Command::CursorDown, _) => {
            app.increment_id_selector();
            None
        },
        (Command::ToggleOverlay, _) => {
            app.show_log_overlay = !app.show_log_overlay;
            None
        },
        _ => None,
    }
}

/// From `WaitingStart`, only the start command moves the lifecycle state
/// (to `Running`); every other command leaves it at `WaitingStart`.
pub proof fn lemma_waiting_start_transitions(pre: App, cmd: Command)
    requires
        pre.gamestate == GameState::WaitingStart,
    ensures
        cmd == Command::Start ==> step_spec(pre, cmd).gamestate == GameState::Running,
        cmd != Command::Start ==> step_spec(pre, cmd).gamestate == GameState::WaitingStart,
{
}

/// A double pause toggle is the identity: from `Running` the session goes to
/// `Paused` and back to exactly the state it started in, and the same holds
/// from `Paused`.
pub proof fn lemma_pause_toggle_involution(pre: App)
    requires
        pre.gamestate == GameState::Running || pre.gamestate == GameState::Paused,
    ensures
        step_spec(step_spec(pre, Command::PauseToggle), Command::PauseToggle) == pre,
{
}

/// The quit command sets the exit flag from any state and changes nothing
/// else; no command ever clears the flag, so it is monotone.
pub proof fn lemma_quit_sets_exit(pre: App, cmd: Command)
    ensures
        step_spec(pre, Command::Quit) == (App { exit: true, ..pre }),
        step_spec(pre, cmd).exit == (pre.exit || cmd == Command::Quit),
{
}

/// The two cadence budgets and the two cadence timestamps are fixed at
/// construction as far as input is concerned: no command touches them, and
/// no command winds the session's clock back.
pub proof fn lemma_step_keeps_budgets(pre: App, cmd: Command)
    ensures
        step_spec(pre, cmd).tick_rate == pre.tick_rate,
        step_spec(pre, cmd).frame_rate == pre.frame_rate,
        step_spec(pre, cmd).last_tick == pre.last_tick,
        step_spec(pre, cmd).last_frame == pre.last_frame,
{
}

/// Dispatch preserves the session invariant: whatever command arrives in
/// whatever state, the selection stays inside the table, the probability
/// stays inside its interval, and snapshot and log stay well formed.
pub proof fn lemma_step_preserves_wf(pre: App, cmd: Command)
    requires
        pre.wf(),
    ensures
        step_spec(pre, cmd).wf(),
{
    lemma_sel_step_valid(pre.planet_id_selector, pre.planets_info@.len());
}

} // verus!
