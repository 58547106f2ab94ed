mod app;
mod command;
mod config;
mod error;
mod game_state;
mod logbuf;
mod selector;
mod snapshot;

pub use app::{
    lemma_clamp_sel_valid, spec_clamp_probability, spec_clamp_sel, spec_dec_probability,
    spec_inc_probability, App, FRAME_RATE_MS, LOG_CAPACITY, PROBABILITY_MAX, TICK_RATE_MS,
};
pub use command::{Action, Command};
pub use config::resolve_init_path;
pub use error::{AppError, CollabCall};
pub use game_state::{
    handle_game_state, lemma_pause_toggle_involution, lemma_quit_sets_exit,
    lemma_step_keeps_budgets, lemma_step_preserves_wf, lemma_waiting_start_transitions,
    step_action, step_spec, GameState,
};
pub use logbuf::LogBuffer;
pub use selector::{
    lemma_sel_cycle, lemma_sel_empty_noop, lemma_sel_inverse, lemma_sel_step_valid, sel_valid,
    spec_sel_dec, spec_sel_dec_iter, spec_sel_inc, spec_sel_inc_iter,
};
pub use snapshot::{
    planets_wf, sort_rows_by_id, sorted_by_id, ExplorerInfo, PlanetEntry, PlanetInfo, Status,
};
