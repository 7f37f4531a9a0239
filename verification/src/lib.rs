//! Management of a sports game session: phase transitions driven by events,
//! period bookkeeping, and per-player substitution and play-time accounting,
//! together with the service that sequences those operations against a
//! storage backend.

mod clock;
pub mod config;
pub mod error;
pub mod game;
pub mod player;
pub mod repo;
pub mod svc;
pub mod text;
pub mod timefmt;

pub use config::{Config, RepoConfig};
pub use error::Error;
pub use game::GameView;
pub use game::{into_game_views, Game, GameState, State};
pub use game::{Event, EventError};
pub use player::{into_player_views, Player, PlayerView};
pub use repo::{InMemoryRepo, Repo};
pub use svc::Service;
