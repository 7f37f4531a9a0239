//! The `Game` aggregate: identity, shared data and current phase, with the
//! single event-processing entry point, and the laws of the dispatch table.

use super::data::{players_view, Data, DataModel};
use super::event::{event_legal, spec_dispatch, Event, EventError, EventHandler};
use super::state::{GamePhase, NotStartedState, State};
use crate::player::Player;
use vstd::prelude::*;

verus! {

/// The mathematical value of a `Game`.
pub struct GameModel {
    pub id: u32,
    pub shared: DataModel,
    pub state: State,
}

/// `Game` represents a sports game, complete with data like periods, game
/// phase, etc.
#[derive(Debug)]
pub struct Game {
    pub id: u32,
    pub shared: Data,
    pub state: State,
}

impl View for Game {
    type V = GameModel;

    open spec fn view(&self) -> GameModel {
        GameModel { id: self.id, shared: self.shared@, state: self.state }
    }
}

impl Clone for Game {
    fn clone(&self) -> (r: Self)
        ensures
            r@ == self@,
    {
        Game { id: self.id, shared: self.shared.clone(), state: self.state }
    }
}

/// What `on_event` returns: the dispatched transition applied to the shared
/// data, under the same id, or the dispatcher's rejection.
pub open spec fn spec_game_on_event(g: GameModel, event: Event, now: u64) -> Result<
    GameModel,
    EventError,
> {
    match spec_dispatch(g.state, event, g.shared, now) {
        Ok(next) => Ok(GameModel { id: g.id, shared: next.1, state: next.0 }),
        Err(e) => Err(e),
    }
}

/// How an executable `on_event` outcome corresponds to its mathematical one.
pub open spec fn game_result_models(r: Result<Game, EventError>, s: Result<
    GameModel,
    EventError,
>) -> bool {
    match r {
        Ok(g) => s matches Ok(m) && g@ == m,
        Err(e) => s matches Err(e2) && e == e2,
    }
}

impl Game {
    /// A new game under `id` with the given roster snapshot: no periods, no
    /// MVP, phase not started.
    pub fn new(id: u32, players: Vec<Player>) -> (r: Self)
        ensures
            r@ == (GameModel {
                id,
                shared: DataModel {
                    periods: Seq::empty(),
                    players: players_view(players@),
                    mvp: None,
                },
                state: State::NotStarted(GamePhase { state: NotStartedState {} }),
            }),
    {
        let r = Self {
            id,
            shared: Data { periods: Vec::new(), players, mvp: None },
            state: State::NotStarted(GamePhase { state: NotStartedState {} }),
        };
        proof {
            assert(r@.shared.periods =~= Seq::<super::data::Period>::empty());
        }
        r
    }

    /// `on_event` processes the incoming event for the game at instant `now`.
    ///
    /// # Errors
    ///
    /// `EventError` will be returned when the wrong `Event` for the current
    /// game state is provided; nothing of the game then changes.
    pub fn on_event(self, event: Event, now: u64) -> (r: Result<Self, EventError>)
        ensures
            game_result_models(r, spec_game_on_event(self@, event, now)),
    {
        let Game { id, shared, state } = self;
        let dispatched = match state {
            State::NotStarted(phase) => phase.on_event(event, shared, now),
            State::InProgress(phase) => phase.on_event(event, shared, now),
            State::Paused(phase) => phase.on_event(event, shared, now),
            State::Finished(phase) => phase.on_event(event, shared, now),
        };
        match dispatched {
            Ok(next) => Ok(Self { id, state: next.0, shared: next.1 }),
            Err(e) => Err(e),
        }
    }
}

/// The dispatch table, as a law: an event is accepted exactly in the table's
/// non-reject cells; every reject cell yields `Invalid` and no change; each
/// accepted event moves to the phase the table names, under the same id.
pub proof fn lemma_dispatch_table(g: GameModel, event: Event, now: u64)
    ensures
        spec_game_on_event(g, event, now) is Ok <==> event_legal(g.state, event),
        !event_legal(g.state, event) ==> spec_game_on_event(g, event, now) == Err::<
            GameModel,
            EventError,
        >(EventError::Invalid),
        spec_game_on_event(g, event, now) matches Ok(g2) ==> g2.id == g.id,
        g.state is NotStarted && event is StartGame ==> spec_game_on_event(
            g,
            event,
            now,
        )->Ok_0.state is InProgress,
        g.state is InProgress && event is EndPeriod ==> spec_game_on_event(
            g,
            event,
            now,
        )->Ok_0.state is Paused,
        g.state is InProgress && event is EndGame ==> spec_game_on_event(
            g,
            event,
            now,
        )->Ok_0.state is Finished,
        g.state is Paused && event is StartPeriod ==> spec_game_on_event(
            g,
            event,
            now,
        )->Ok_0.state is InProgress,
        g.state is Paused && event is EndGame ==> spec_game_on_event(
            g,
            event,
            now,
        )->Ok_0.state is Finished,
{
}

/// Well-formedness of a game reachable through `Game::new` and `on_event`:
/// all periods but the most recent are closed; the most recent one is open
/// exactly while the game is in progress; a game not yet started has no
/// periods.
pub open spec fn game_wf(g: GameModel) -> bool {
    &&& forall|i: int| 0 <= i < g.shared.periods.len() - 1 ==> g.shared.periods[i].end_time is Some
    &&& match g.state {
        State::NotStarted(_) => g.shared.periods.len() == 0,
        State::InProgress(_) => g.shared.periods.len() > 0 && g.shared.periods.last().end_time is None,
        State::Paused(_) => g.shared.periods.len() > 0 && g.shared.periods.last().end_time is Some,
        State::Finished(_) => g.shared.periods.len() > 0 ==> g.shared.periods.last().end_time is Some,
    }
}

/// Every accepted event preserves well-formedness.
pub proof fn lemma_game_wf_preserved(g: GameModel, event: Event, now: u64)
    requires
        game_wf(g),
        spec_game_on_event(g, event, now) is Ok,
    ensures
        game_wf(spec_game_on_event(g, event, now)->Ok_0),
{
}

/// The period invariant at the boundary: ending a period or the game closes
/// the most recent period, which until then was open while play was active.
pub proof fn lemma_period_closed_on_end(g: GameModel, event: Event, now: u64)
    requires
        game_wf(g),
        event is EndPeriod || event is EndGame,
        spec_game_on_event(g, event, now) is Ok,
    ensures
        g.state is InProgress ==> g.shared.periods.last().end_time is None,
        spec_game_on_event(g, event, now)->Ok_0.shared.periods.last().end_time == Some(now),
{
}

/// The round trip through the table succeeds at every step:
/// not started, started, period ended, period restarted, ended.
pub proof fn lemma_round_trip(g: GameModel, t1: u64, t2: u64, t3: u64, t4: u64)
    requires
        g.state is NotStarted,
    ensures
        ({
            let r1 = spec_game_on_event(g, Event::StartGame, t1);
            let r2 = spec_game_on_event(r1->Ok_0, Event::EndPeriod, t2);
            let r3 = spec_game_on_event(r2->Ok_0, Event::StartPeriod, t3);
            let r4 = spec_game_on_event(r3->Ok_0, Event::EndGame, t4);
            &&& r1 matches Ok(g1) && g1.state is InProgress
            &&& r2 matches Ok(g2) && g2.state is Paused
            &&& r3 matches Ok(g3) && g3.state is InProgress
            &&& r4 matches Ok(g4) && g4.state is Finished
        }),
{
}

} // verus!
