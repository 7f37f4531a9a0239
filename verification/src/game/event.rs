//! The event dispatcher: given the current phase and an incoming event,
//! select the one legal transition or reject the event.

use super::data::{Data, DataModel};
use super::state::{
    spec_end_game_in_progress, spec_end_game_paused, spec_end_period, spec_start_game,
    spec_start_period, FinishedState, GamePhase, InProgressState, NotStartedState, PausedState,
    State,
};
use vstd::prelude::*;

verus! {

/// `Event` represents an event that has happened affecting the game state.
#[derive(Clone, Copy, Debug, PartialEq, Eq, Structural)]
pub enum Event {
    StartGame,
    EndGame,
    StartPeriod,
    EndPeriod,
}

/// `EventError` represents errors that can occur when processing events for
/// a game.
#[derive(Clone, Copy, Debug, PartialEq, Eq, Structural)]
pub enum EventError {
    NoOp,
    Invalid,
}

/// Whether the dispatch table has a transition for `event` in `state`;
/// every other pairing is rejected.
pub open spec fn event_legal(state: State, event: Event) -> bool {
    match (state, event) {
        (State::NotStarted(_), Event::StartGame) => true,
        (State::InProgress(_), Event::EndPeriod) => true,
        (State::InProgress(_), Event::EndGame) => true,
        (State::Paused(_), Event::StartPeriod) => true,
        (State::Paused(_), Event::EndGame) => true,
        _ => false,
    }
}

/// How an executable dispatch outcome corresponds to its mathematical one:
/// success for success with the same phase and equal data, error for the
/// same error.
pub open spec fn dispatch_result_models(
    r: Result<(State, Data), EventError>,
    s: Result<(State, DataModel), EventError>,
) -> bool {
    match r {
        Ok((state, data)) => s matches Ok(m) && m.0 == state && m.1 == data@,
        Err(e) => s matches Err(e2) && e == e2,
    }
}

/// `EventHandler` defines how game events are handled, with each game phase
/// performing different transitions based on the event type.
pub trait EventHandler: Sized {
    /// The dispatch row of this phase: the transition chosen for `event`,
    /// or the rejection.
    spec fn spec_on_event(self, event: Event, shared: DataModel, now: u64) -> Result<
        (State, DataModel),
        EventError,
    >;

    /// Process the incoming event for the game at instant `now`.
    fn on_event(self, event: Event, shared: Data, now: u64) -> (r: Result<
        (State, Data),
        EventError,
    >)
        ensures
            dispatch_result_models(r, self.spec_on_event(event, shared@, now)),
    ;
}

impl EventHandler for GamePhase<NotStartedState> {
    open spec fn spec_on_event(self, event: Event, shared: DataModel, now: u64) -> Result<
        (State, DataModel),
        EventError,
    > {
        match event {
            Event::StartGame => Ok(spec_start_game(shared, now)),
            _ => Err(EventError::Invalid),
        }
    }

    fn on_event(self, event: Event, shared: Data, now: u64) -> (r: Result<
        (State, Data),
        EventError,
    >) {
        match event {
            Event::StartGame => {
                let (next, updated) = self.start_game(shared, now);

                Ok((next.into_state(), updated))
            },
            _ => Err(EventError::Invalid),
        }
    }
}

impl EventHandler for GamePhase<InProgressState> {
    open spec fn spec_on_event(self, event: Event, shared: DataModel, now: u64) -> Result<
        (State, DataModel),
        EventError,
    > {
        match event {
            Event::EndPeriod => Ok(spec_end_period(self, shared, now)),
            Event::EndGame => Ok(spec_end_game_in_progress(self, shared, now)),
            _ => Err(EventError::Invalid),
        }
    }

    fn on_event(self, event: Event, shared: Data, now: u64) -> (r: Result<
        (State, Data),
        EventError,
    >) {
        match event {
            Event::EndPeriod => {
                let (next, updated) = self.end_period(shared, now);
                Ok((next.into_state(), updated))
            },
            Event::EndGame => {
                let (next, updated) = self.end_game(shared, now);
                Ok((next.into_state(), updated))
            },
            _ => Err(EventError::Invalid),
        }
    }
}

impl EventHandler for GamePhase<PausedState> {
    open spec fn spec_on_event(self, event: Event, shared: DataModel, now: u64) -> Result<
        (State, DataModel),
        EventError,
    > {
        match event {
            Event::StartPeriod => Ok(spec_start_period(self, shared, now)),
            Event::EndGame => Ok(spec_end_game_paused(self, shared, now)),
            _ => Err(EventError::Invalid),
        }
    }

    fn on_event(self, event: Event, shared: Data, now: u64) -> (r: Result<
        (State, Data),
        EventError,
    >) {
        match event {
            Event::StartPeriod => {
                let (next, updated) = self.start_period(shared, now);
                Ok((next.into_state(), updated))
            },
            Event::EndGame => {
                let (next, updated) = self.end_game(shared, now);
                Ok((next.into_state(), updated))
            },
            _ => Err(EventError::Invalid),
        }
    }
}

impl EventHandler for GamePhase<FinishedState> {
    open spec fn spec_on_event(self, _event: Event, _shared: DataModel, _now: u64) -> Result<
        (State, DataModel),
        EventError,
    > {
        Err(EventError::Invalid)
    }

    fn on_event(self, _event: Event, _shared: Data, _now: u64) -> (r: Result<
        (State, Data),
        EventError,
    >) {
        Err(EventError::Invalid)
    }
}

/// The whole dispatch table: the phase's row applied to the event.
pub open spec fn spec_dispatch(state: State, event: Event, shared: DataModel, now: u64) -> Result<
    (State, DataModel),
    EventError,
> {
    match state {
        State::NotStarted(phase) => phase.spec_on_event(event, shared, now),
        State::InProgress(phase) => phase.spec_on_event(event, shared, now),
        State::Paused(phase) => phase.spec_on_event(event, shared, now),
        State::Finished(phase) => phase.spec_on_event(event, shared, now),
    }
}

} // verus!
