//! `game` contains the main `Game` struct, events and other items that can be
//! interacted with to manage a sports game.

mod aggregate;
mod data;
mod event;
mod state;
mod view;

pub use self::aggregate::{spec_game_on_event, Game, GameModel};
pub use self::aggregate::{game_wf, lemma_dispatch_table, lemma_game_wf_preserved};
pub use self::aggregate::{lemma_period_closed_on_end, lemma_round_trip};
pub use self::data::{clone_players, players_view, Data, DataModel, Period};
pub use self::data::spec_close_last_period;
pub use self::event::{event_legal, spec_dispatch, Event, EventError, EventHandler};
pub use self::state::{
    FinishedState, GamePhase, GameState, InProgressState, NotStartedState, PausedState, State,
};
pub use self::view::{into_game_views, spec_game_view, GameView, GameViewModel};
