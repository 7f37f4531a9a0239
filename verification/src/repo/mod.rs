//! `repo` contains the `Repo` trait which describes how data stores for
//! `game` and `player` are interacted with, and the in-memory store.

mod contract;
mod in_memory;

pub use self::contract::{games_view, games_wf, has_game, has_player, players_wf, Repo};
pub use self::contract::{sorted_by_id_desc, sorted_by_name_ci};
pub use self::in_memory::InMemoryRepo;
