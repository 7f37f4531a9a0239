//! The `Game` phase machinery: four mutually exclusive phases, each carrying
//! its timestamps, and the legal transitions as phase-to-phase functions.
//!
//! Each transition takes the current shared `Data` by value together with the
//! current instant `now`, and returns the next phase and the new `Data`; no
//! transition can fail. Which events are legal in which phase is decided one
//! level up, by the event dispatcher.

use super::data::{spec_close_last_period, Data, DataModel, Period};
use vstd::prelude::*;

verus! {

/// `State` represents the `Game` state or 'phase', one variant per phase,
/// each wrapping the phase's marker struct.
#[derive(Clone, Copy, Debug)]
pub enum State {
    NotStarted(GamePhase<NotStartedState>),
    InProgress(GamePhase<InProgressState>),
    Paused(GamePhase<PausedState>),
    Finished(GamePhase<FinishedState>),
}

/// The bare phase kind, without the phase's data.
#[derive(Clone, Copy, Debug, PartialEq, Eq, Structural)]
pub enum GameState {
    NotStarted,
    InProgress,
    Paused,
    Finished,
}

/// The kind of a `State`.
pub open spec fn spec_kind(state: State) -> GameState {
    match state {
        State::NotStarted(_) => GameState::NotStarted,
        State::InProgress(_) => GameState::InProgress,
        State::Paused(_) => GameState::Paused,
        State::Finished(_) => GameState::Finished,
    }
}

impl State {
    pub fn kind(&self) -> (r: GameState)
        ensures
            r == spec_kind(*self),
    {
        match self {
            Self::NotStarted(_) => GameState::NotStarted,
            Self::InProgress(_) => GameState::InProgress,
            Self::Paused(_) => GameState::Paused,
            Self::Finished(_) => GameState::Finished,
        }
    }
}

#[derive(Clone, Copy, Debug)]
pub struct NotStartedState {}

#[derive(Clone, Copy, Debug)]
pub struct InProgressState {
    pub start_time: u64,
}

#[derive(Clone, Copy, Debug)]
pub struct PausedState {
    pub start_time: u64,
}

#[derive(Clone, Copy, Debug)]
pub struct FinishedState {
    pub start_time: u64,
    pub end_time: u64,
}

/// `GamePhase` is a marker struct representing the phase a game is in; only
/// the transitions leaving that phase are defined on it.
#[derive(Clone, Copy, Debug)]
pub struct GamePhase<S> {
    pub state: S,
}

impl Default for GamePhase<NotStartedState> {
    fn default() -> (r: Self)
        ensures
            r == (GamePhase { state: NotStartedState {} }),
    {
        Self { state: NotStartedState {} }
    }
}

/// What `start_game` does: a new open period at `now` is appended and the
/// phase records `now` as the game's start.
pub open spec fn spec_start_game(shared: DataModel, now: u64) -> (State, DataModel) {
    (
        State::InProgress(GamePhase { state: InProgressState { start_time: now } }),
        DataModel { periods: shared.periods.push(Period { start_time: now, end_time: None }), ..shared },
    )
}

/// What `end_period` does: the most recent period is closed at `now` and the
/// game's start time is preserved.
pub open spec fn spec_end_period(
    phase: GamePhase<InProgressState>,
    shared: DataModel,
    now: u64,
) -> (State, DataModel) {
    (
        State::Paused(GamePhase { state: PausedState { start_time: phase.state.start_time } }),
        DataModel { periods: spec_close_last_period(shared.periods, now), ..shared },
    )
}

/// What `end_game` from a running game does: the most recent period, if any,
/// is closed at `now`, and `now` becomes the game's end time.
pub open spec fn spec_end_game_in_progress(
    phase: GamePhase<InProgressState>,
    shared: DataModel,
    now: u64,
) -> (State, DataModel) {
    (
        State::Finished(
            GamePhase {
                state: FinishedState { start_time: phase.state.start_time, end_time: now },
            },
        ),
        DataModel { periods: spec_close_last_period(shared.periods, now), ..shared },
    )
}

/// What `start_period` does: a new open period at `now` is appended and the
/// game's start time is preserved.
pub open spec fn spec_start_period(
    phase: GamePhase<PausedState>,
    shared: DataModel,
    now: u64,
) -> (State, DataModel) {
    (
        State::InProgress(GamePhase { state: InProgressState { start_time: phase.state.start_time } }),
        DataModel { periods: shared.periods.push(Period { start_time: now, end_time: None }), ..shared },
    )
}

/// What `end_game` from a paused game does: the most recent period, if any,
/// is closed at `now`, and `now` becomes the game's end time.
pub open spec fn spec_end_game_paused(
    phase: GamePhase<PausedState>,
    shared: DataModel,
    now: u64,
) -> (State, DataModel) {
    (
        State::Finished(
            GamePhase {
                state: FinishedState { start_time: phase.state.start_time, end_time: now },
            },
        ),
        DataModel { periods: spec_close_last_period(shared.periods, now), ..shared },
    )
}

/// Close the most recent open period in place; a no-op when no period exists
/// (defensive: that case is unreachable from a started game but must not
/// panic).
fn close_last_period(shared: &mut Data, end_time: u64)
    ensures
        final(shared)@ == (DataModel {
            periods: spec_close_last_period(old(shared)@.periods, end_time),
            ..old(shared)@
        }),
{
    match shared.periods.pop() {
        Some(period) => {
            let mut period = period;
            period.finish(end_time);
            shared.periods.push(period);
            proof {
                assert(shared@.periods =~= spec_close_last_period(old(shared)@.periods, end_time));
            }
        },
        None => {},
    }
}

impl GamePhase<NotStartedState> {
    pub fn start_game(self, shared: Data, now: u64) -> (r: (GamePhase<InProgressState>, Data))
        ensures
            (State::InProgress(r.0), r.1@) == spec_start_game(shared@, now),
    {
        let mut shared = shared;
        shared.periods.push(Period::new(now));

        let next = GamePhase { state: InProgressState { start_time: now } };

        (next, shared)
    }
}

impl GamePhase<InProgressState> {
    pub fn end_period(self, shared: Data, now: u64) -> (r: (GamePhase<PausedState>, Data))
        ensures
            (State::Paused(r.0), r.1@) == spec_end_period(self, shared@, now),
    {
        let mut shared = shared;
        close_last_period(&mut shared, now);

        let next = GamePhase { state: PausedState { start_time: self.state.start_time } };

        (next, shared)
    }

    pub fn end_game(self, shared: Data, now: u64) -> (r: (GamePhase<FinishedState>, Data))
        ensures
            (State::Finished(r.0), r.1@) == spec_end_game_in_progress(self, shared@, now),
    {
        let mut shared = shared;
        close_last_period(&mut shared, now);

        let next = GamePhase {
            state: FinishedState { start_time: self.state.start_time, end_time: now },
        };

        (next, shared)
    }
}

impl GamePhase<PausedState> {
    pub fn start_period(self, shared: Data, now: u64) -> (r: (GamePhase<InProgressState>, Data))
        ensures
            (State::InProgress(r.0), r.1@) == spec_start_period(self, shared@, now),
    {
        let mut shared = shared;
        shared.periods.push(Period::new(now));

        let next = GamePhase { state: InProgressState { start_time: self.state.start_time } };

        (next, shared)
    }

    pub fn end_game(self, shared: Data, now: u64) -> (r: (GamePhase<FinishedState>, Data))
        ensures
            (State::Finished(r.0), r.1@) == spec_end_game_paused(self, shared@, now),
    {
        let mut shared = shared;
        close_last_period(&mut shared, now);

        let next = GamePhase {
            state: FinishedState { start_time: self.state.start_time, end_time: now },
        };

        (next, shared)
    }
}

impl GamePhase<NotStartedState> {
    /// The phase wrapped back into the `State` enum.
    pub fn into_state(self) -> (r: State)
        ensures
            r == State::NotStarted(self),
    {
        State::NotStarted(self)
    }
}

impl GamePhase<InProgressState> {
    /// The phase wrapped back into the `State` enum.
    pub fn into_state(self) -> (r: State)
        ensures
            r == State::InProgress(self),
    {
        State::InProgress(self)
    }
}

impl GamePhase<PausedState> {
    /// The phase wrapped back into the `State` enum.
    pub fn into_state(self) -> (r: State)
        ensures
            r == State::Paused(self),
    {
        State::Paused(self)
    }
}

impl GamePhase<FinishedState> {
    /// The phase wrapped back into the `State` enum.
    pub fn into_state(self) -> (r: State)
        ensures
            r == State::Finished(self),
    {
        State::Finished(self)
    }
}

} // verus!
