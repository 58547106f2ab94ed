use vstd::prelude::*;

use crate::game_state::GameState;
use crate::logbuf::LogBuffer;
use crate::selector::{sel_valid, spec_sel_dec, spec_sel_inc, lemma_sel_step_valid};
use crate::snapshot::{planets_wf, ExplorerInfo, PlanetEntry};

verus! {

/// Minimum wall-clock interval, in milliseconds, between two snapshot
/// refreshes (about 5 Hz).
pub const TICK_RATE_MS: u64 = 200;

/// Minimum wall-clock interval, in milliseconds, between two redraws
/// (about 30 Hz).
pub const FRAME_RATE_MS: u64 = 33;

/// The tunable event probability is a percentage and lives in `[0, 100]`;
/// increase and decrease both saturate at the ends of that interval.
pub const PROBABILITY_MAX: u32 = 100;

/// How many log entries the session keeps before the oldest is dropped.
pub const LOG_CAPACITY: usize = 100;

/// The session aggregate: lifecycle state, the cached simulation snapshot,
/// the two scheduling timestamps, the tunable event probability, the table
/// selection and the display toggles.
///
/// All timestamps are milliseconds of a monotonic clock supplied by the
/// caller; the library never reads a clock itself.
pub struct App {
    /// Current lifecycle state.
    pub gamestate: GameState,
    /// Cached planet table, replaced wholesale at each tick refresh.
    pub planets_info: Vec<PlanetEntry>,
    /// Cached explorer list, replaced together with the planet table.
    pub explorers_info: Vec<ExplorerInfo>,
    /// Tunable probability of a periodic stochastic event, in percent.
    pub probability_sunray: u32,
    /// Once true the outer loop stops; never reset.
    pub exit: bool,
    /// Snapshot-refresh budget in milliseconds; fixed at construction.
    pub tick_rate: u64,
    /// When the last snapshot refresh happened.
    pub last_tick: u64,
    /// Redraw budget in milliseconds; fixed at construction.
    pub frame_rate: u64,
    /// When the last redraw happened.
    pub last_frame: u64,
    /// The session's bounded log.
    pub log_entries: LogBuffer,
    /// Row selection of the planet table: absent, or an index into
    /// `planets_info`.
    pub planet_id_selector: Option<usize>,
    /// Whether the log overlay is shown.
    pub show_log_overlay: bool,
}

/// Clamp a requested probability into the allowed interval.
pub open spec fn spec_clamp_probability(p: u32) -> u32 {
    if p <= PROBABILITY_MAX {
        p
    } else {
        PROBABILITY_MAX
    }
}

/// One increase of the probability, saturating at the upper bound.
pub open spec fn spec_inc_probability(p: u32) -> u32 {
    if p < PROBABILITY_MAX {
        (p + 1) as u32
    } else {
        p
    }
}

/// One decrease of the probability, saturating at zero.
pub open spec fn spec_dec_probability(p: u32) -> u32 {
    if p > 0 {
        (p - 1) as u32
    } else {
        p
    }
}

/// Selection policy when the table shrinks between reads: an index that no
/// longer fits is clamped to the last valid row, or cleared when the table
/// became empty. An index that still fits is kept as it is.
pub open spec fn spec_clamp_sel(sel: Option<usize>, n: nat) -> Option<usize> {
    match sel {
        None => None,
        Some(i) => if i < n {
            Some(i)
        } else if n == 0 {
            None
        } else {
            Some((n - 1) as usize)
        },
    }
}

/// The clamping policy never leaves a dangling selection: whatever the
/// selection was before, after clamping against a table of length `n` it is
/// valid for that table.
pub proof fn lemma_clamp_sel_valid(sel: Option<usize>, n: nat)
    ensures
        sel_valid(spec_clamp_sel(sel, n), n),
{
}

impl App {
    /// Session invariant: the selection fits the planet table, the
    /// probability sits in its interval, every snapshot row is well formed
    /// and the log buffer is well formed.
    pub open spec fn wf(self) -> bool {
        &&& sel_valid(self.planet_id_selector, self.planets_info@.len())
        &&& self.probability_sunray <= PROBABILITY_MAX
        &&& planets_wf(self.planets_info@)
        &&& self.log_entries.wf()
    }

    /// Create a session at process start: waiting for the start command, not
    /// exiting, both cadence timestamps at `now`, no selection, overlay
    /// hidden, log empty.
    pub fn new(
        planets: Vec<PlanetEntry>,
        explorers: Vec<ExplorerInfo>,
        probability: u32,
        now: u64,
    ) -> (app: App)
        requires
            planets_wf(planets@),
        ensures
            app.wf(),
            app.gamestate == GameState::WaitingStart,
            app.planets_info == planets,
            app.explorers_info == explorers,
            app.probability_sunray == spec_clamp_probability(probability),
            app.exit == false,
            app.tick_rate == TICK_RATE_MS,
            app.last_tick == now,
            app.frame_rate == FRAME_RATE_MS,
            app.last_frame == now,
            app.log_entries.capacity == LOG_CAPACITY,
            app.log_entries.entries@ == Seq::<String>::empty(),
            app.planet_id_selector == Option::<usize>::None,
            app.show_log_overlay == false,
    {
        let probability_sunray: u32 = if probability <= PROBABILITY_MAX {
            probability
        } else {
            PROBABILITY_MAX
        };
        App {
            gamestate: GameState::WaitingStart,
            planets_info: planets,
            explorers_info: explorers,
            probability_sunray,
            exit: false,
            tick_rate: TICK_RATE_MS,
            last_tick: now,
            frame_rate: FRAME_RATE_MS,
            last_frame: now,
            log_entries: LogBuffer::new(LOG_CAPACITY),
            planet_id_selector: None,
            show_log_overlay: false,
        }
    }

    pub fn get_game_state(&self) -> (s: GameState)
        ensures
            s == self.gamestate,
    {
        self.gamestate
    }

    pub fn set_game_state(&mut self, state: GameState)
        ensures
            *final(self) == (App { gamestate: state, ..*old(self) }),
    {
        self.gamestate = state;
    }

    /// Move the table selection one row down, wrapping at the end; on an
    /// empty table the selection is left untouched. A valid selection stays
    /// valid.
    pub fn increment_id_selector(&mut self)
        ensures
            *final(self) == (App {
                planet_id_selector: spec_sel_inc(
                    old(self).planet_id_selector,
                    old(self).planets_info@.len(),
                ),
                ..*old(self)
            }),
            old(self).wf() ==> final(self).wf(),
    {
        proof {
            if sel_valid(self.planet_id_selector, self.planets_info@.len()) {
                lemma_sel_step_valid(self.planet_id_selector, self.planets_info@.len());
            }
        }
        let n: usize = self.planets_info.len();
        if n == 0 {
            return;
        }
        let i: usize = match self.planet_id_selector {
            Some(i) => if i >= n - 1 {
                0
            } else {
                i + 1
            },
            None => 0,
        };
        self.planet_id_selector = Some(i);
    }

    /// Move the table selection one row up, wrapping at the start; symmetric
    /// to `increment_id_selector`.
    pub fn decrement_id_selector(&mut self)
        ensures
            *final(self) == (App {
                planet_id_selector: spec_sel_dec(
                    old(self).planet_id_selector,
                    old(self).planets_info@.len(),
                ),
                ..*old(self)
            }),
            old(self).wf() ==> final(self).wf(),
    {
        proof {
            if sel_valid(self.planet_id_selector, self.planets_info@.len()) {
                lemma_sel_step_valid(self.planet_id_selector, self.planets_info@.len());
            }
        }
        let n: usize = self.planets_info.len();
        if n == 0 {
            return;
        }
        let i: usize = match self.planet_id_selector {
            Some(i) => if i == 0 {
                n - 1
            } else {
                i - 1
            },
            None => n - 1,
        };
        self.planet_id_selector = Some(i);
    }

    /// Raise the event probability by one, saturating at the upper bound.
    pub fn set_sunray_increment(&mut self)
        ensures
            *final(self) == (App {
                probability_sunray: spec_inc_probability(old(self).probability_sunray),
                ..*old(self)
            }),
            old(self).wf() ==> final(self).wf(),
    {
        if self.probability_sunray < PROBABILITY_MAX {
            self.probability_sunray = self.probability_sunray + 1;
        }
    }

    /// Lower the event probability by one, saturating at zero.
    pub fn set_sunray_decrement(&mut self)
        ensures
            *final(self) == (App {
                probability_sunray: spec_dec_probability(old(self).probability_sunray),
                ..*old(self)
            }),
            old(self).wf() ==> final(self).wf(),
    {
        if self.probability_sunray > 0 {
            self.probability_sunray = self.probability_sunray - 1;
        }
    }

    /// Decide the redraw for this iteration: when at least `frame_rate`
    /// milliseconds passed since the last redraw, the redraw is due and the
    /// last-frame timestamp resets to `now`; otherwise nothing changes.
    pub fn frame_due(&mut self, now: u64) -> (due: bool)
        requires
            old(self).last_frame <= now,
        ensures
            due == (now - old(self).last_frame >= old(self).frame_rate),
            due ==> *final(self) == (App { last_frame: now, ..*old(self) }),
            !due ==> *final(self) == *old(self),
            final(self).last_frame >= old(self).last_frame,
    {
        if now - self.last_frame >= self.frame_rate {
            self.last_frame = now;
            true
        } else {
            false
        }
    }

    /// Whether a snapshot refresh is due: at least `tick_rate` milliseconds
    /// passed since the last refresh. Reading the decision changes nothing.
    pub fn tick_pending(&self, now: u64) -> (due: bool)
        requires
            self.last_tick <= now,
        ensures
            due == (now - self.last_tick >= self.tick_rate),
    {
        now - self.last_tick >= self.tick_rate
    }

    /// Complete a due snapshot refresh: replace both cached snapshots
    /// wholesale, clamp the selection to the new table (see
    /// `spec_clamp_sel`), and reset the last-tick timestamp to `now`.
    /// Nothing else changes; in particular the probability and the lifecycle
    /// state are untouched.
    pub fn complete_tick(
        &mut self,
        planets: Vec<PlanetEntry>,
        explorers: Vec<ExplorerInfo>,
        now: u64,
    )
        requires
            old(self).last_tick <= now,
            planets_wf(planets@),
        ensures
            *final(self) == (App {
                planets_info: planets,
                explorers_info: explorers,
                planet_id_selector: spec_clamp_sel(old(self).planet_id_selector, planets@.len()),
                last_tick: now,
                ..*old(self)
            }),
            final(self).last_tick >= old(self).last_tick,
            old(self).wf() ==> final(self).wf(),
    {
        self.planets_info = planets;
        self.explorers_info = explorers;
        let n: usize = self.planets_info.len();
        match self.planet_id_selector {
            Some(i) => {
                if n == 0 {
                    self.planet_id_selector = None;
                } else if i >= n {
                    self.planet_id_selector = Some(n - 1);
                }
            },
            None => {},
        }
        self.last_tick = now;
    }

    /// Append one entry to the session log; every other part of the session
    /// stays as it was.
    pub fn push_log(&mut self, msg: String)
        requires
            old(self).log_entries.wf(),
        ensures
            *final(self) == (App { log_entries: final(self).log_entries, ..*old(self) }),
            final(self).log_entries.wf(),
            final(self).log_entries.capacity == old(self).log_entries.capacity,
            old(self).log_entries.entries@.len() < old(self).log_entries.capacity
                ==> final(self).log_entries.entries@ == old(self).log_entries.entries@.push(msg),
            old(self).log_entries.entries@.len() == old(self).log_entries.capacity
                ==> final(self).log_entries.entries@
                == old(self).log_entries.entries@.drop_first().push(msg),
            old(self).wf() ==> final(self).wf(),
    {
        self.log_entries.push(msg);
    }
}

} // verus!
