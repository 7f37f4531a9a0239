//! `GameView` is a read-only view of a `Game` for presentation layers.

use super::aggregate::{Game, GameModel};
use super::data::{clone_players, Period};
use super::state::{spec_kind, GameState, State};
use crate::player::{
    interval_len, into_player_views, spec_player_view, PlayerView, PlayerViewModel,
};
use crate::timefmt::{duration_str, spec_digital_time, spec_duration_str};
use vstd::prelude::*;
use vstd::string::StringExecFns;

verus! {

/// The mathematical value of a `GameView`.
pub struct GameViewModel {
    pub id: u32,
    pub start_time: Option<u64>,
    pub end_time: Option<u64>,
    pub state: GameState,
    pub periods: Seq<Period>,
    pub players: Seq<PlayerViewModel>,
    pub mvp: Option<u32>,
}

/// The start and end instants a game's phase resolves to.
pub open spec fn spec_resolved_times(state: State) -> (Option<u64>, Option<u64>) {
    match state {
        State::NotStarted(_) => (None, None),
        State::InProgress(p) => (Some(p.state.start_time), None),
        State::Paused(p) => (Some(p.state.start_time), None),
        State::Finished(p) => (Some(p.state.start_time), Some(p.state.end_time)),
    }
}

/// The view a game projects to.
pub open spec fn spec_game_view(g: GameModel) -> GameViewModel {
    GameViewModel {
        id: g.id,
        start_time: spec_resolved_times(g.state).0,
        end_time: spec_resolved_times(g.state).1,
        state: spec_kind(g.state),
        periods: g.shared.periods,
        players: g.shared.players.map_values(|p| spec_player_view(p)),
        mvp: g.shared.mvp,
    }
}

/// `GameView` is a read-only view of a `Game` with useful data provided as
/// struct fields and via helper methods. It is intended for use in HTML and
/// other presentation layers.
pub struct GameView {
    pub id: u32,
    pub start_time: Option<u64>,
    pub end_time: Option<u64>,
    pub state: GameState,
    pub periods: Vec<Period>,
    pub players: Vec<PlayerView>,
    pub mvp: Option<u32>,
}

impl View for GameView {
    type V = GameViewModel;

    open spec fn view(&self) -> GameViewModel {
        GameViewModel {
            id: self.id,
            start_time: self.start_time,
            end_time: self.end_time,
            state: self.state,
            periods: self.periods@,
            players: self.players@.map_values(|p: PlayerView| p@),
            mvp: self.mvp,
        }
    }
}

impl GameView {
    /// The game's start instant as its UTC time of day, or `-` before the
    /// game starts.
    pub fn start_time_as_digital(&self) -> (r: String)
        ensures
            r@ == match self@.start_time {
                Some(t) => spec_digital_time(t),
                None => seq!['-'],
            },
    {
        digital_time_opt(self.start_time)
    }

    /// The game's end instant as its UTC time of day, or `-` until the game
    /// ends.
    pub fn end_time_as_digital(&self) -> (r: String)
        ensures
            r@ == match self@.end_time {
                Some(t) => spec_digital_time(t),
                None => seq!['-'],
            },
    {
        digital_time_opt(self.end_time)
    }

    /// How long the game has run: up to its end once ended, else up to
    /// instant `now`; `-` before it starts.
    pub fn total_duration(&self, now: u64) -> (r: String)
        ensures
            r@ == match (self@.start_time, self@.end_time) {
                (Some(st), None) => spec_duration_str(interval_len(st, now)),
                (Some(st), Some(et)) => spec_duration_str(interval_len(st, et)),
                _ => seq!['-'],
            },
    {
        match (self.start_time, self.end_time) {
            (Some(st), None) => duration_str(clamped_delta(st, now)),
            (Some(st), Some(et)) => duration_str(clamped_delta(st, et)),
            _ => dash(),
        }
    }

    /// How long the current period has run as of instant `now`, or `-` when
    /// no period is open.
    pub fn current_period_duration(&self, now: u64) -> (r: String)
        ensures
            r@ == if self@.periods.len() > 0 && self@.periods.last().end_time is None {
                spec_duration_str(interval_len(self@.periods.last().start_time, now))
            } else {
                seq!['-']
            },
    {
        if self.periods.len() > 0 {
            let p = self.periods[self.periods.len() - 1];
            if p.end_time.is_none() {
                return duration_str(clamped_delta(p.start_time, now));
            }
        }
        dash()
    }

    /// The view of one game.
    pub fn of_game(game: &Game) -> (r: Self)
        ensures
            r@ == spec_game_view(game@),
    {
        let (start_time, end_time) = match &game.state {
            State::NotStarted(_) => (None, None),
            State::InProgress(p) => (Some(p.state.start_time), None),
            State::Paused(p) => (Some(p.state.start_time), None),
            State::Finished(p) => (Some(p.state.start_time), Some(p.state.end_time)),
        };

        let r = Self {
            id: game.id,
            start_time,
            end_time,
            periods: clone_periods_of(&game.shared.periods),
            players: into_player_views(clone_players(&game.shared.players)),
            state: game.state.kind(),
            mvp: game.shared.mvp,
        };
        proof {
            assert(r@.players =~= spec_game_view(game@).players);
            assert(r@.periods =~= spec_game_view(game@).periods);
        }
        r
    }
}

/// An instant's UTC time of day, or `-` for none.
fn digital_time_opt(t: Option<u64>) -> (r: String)
    ensures
        r@ == match t {
            Some(ms) => spec_digital_time(ms),
            None => seq!['-'],
        },
{
    match t {
        Some(ms) => crate::timefmt::digital_time(ms),
        None => dash(),
    }
}

/// The interval from `st` to `now`, zero when `now` lies before `st`.
fn clamped_delta(st: u64, now: u64) -> (r: u64)
    ensures
        r == interval_len(st, now),
{
    if now >= st {
        now - st
    } else {
        0
    }
}

fn dash() -> (r: String)
    ensures
        r@ == seq!['-'],
{
    let r = String::from_str("-");
    proof {
        reveal_strlit("-");
        assert(r@ =~= seq!['-']);
    }
    r
}

fn clone_periods_of(periods: &Vec<Period>) -> (r: Vec<Period>)
    ensures
        r@ == periods@,
{
    let mut r: Vec<Period> = Vec::new();
    let mut i: usize = 0;
    while i < periods.len()
        invariant
            i <= periods.len(),
            r@ =~= periods@.subrange(0, i as int),
        decreases periods.len() - i,
    {
        r.push(periods[i]);
        i = i + 1;
    }
    proof {
        assert(r@ =~= periods@);
    }
    r
}

/// `into_game_views` is a helper function to simplify converting a vector of
/// `Game`s into `GameView`s.
pub fn into_game_views(games: Vec<Game>) -> (r: Vec<GameView>)
    ensures
        r@.len() == games@.len(),
        forall|i: int| 0 <= i < r@.len() ==> r@[i]@ == spec_game_view(games@[i]@),
{
    let mut r: Vec<GameView> = Vec::new();
    let mut i: usize = 0;
    while i < games.len()
        invariant
            i <= games@.len(),
            r@.len() == i,
            forall|j: int| 0 <= j < i ==> r@[j]@ == spec_game_view(games@[j]@),
        decreases games@.len() - i,
    {
        r.push(GameView::of_game(&games[i]));
        i = i + 1;
    }
    r
}

} // verus!
