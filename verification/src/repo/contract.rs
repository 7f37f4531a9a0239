//! The `Repo` trait describes the methods required of a service repository,
//! with the store's contents modelled as sequences of game and player models
//! with pairwise distinct ids.
//!
//! A store may always fail internally (it may sit on a database); the
//! contracts therefore promise what holds of each outcome, and that a failed
//! call leaves the modelled contents unchanged, rather than promising
//! success.

use crate::error::Error;
use crate::game::{Game, GameModel};
use crate::player::{Player, PlayerModel};
use crate::game::players_view;
use crate::text::{lex_le, lower_of};
use vstd::prelude::*;

verus! {

/// The models of a sequence of games.
pub open spec fn games_view(games: Seq<Game>) -> Seq<GameModel> {
    games.map_values(|g: Game| g@)
}

/// Whether a game under `id` is stored.
pub open spec fn has_game(games: Seq<GameModel>, id: u32) -> bool {
    exists|i: int| 0 <= i < games.len() && games[i].id == id
}

/// Whether a player under `id` is stored.
pub open spec fn has_player(players: Seq<PlayerModel>, id: u32) -> bool {
    exists|i: int| 0 <= i < players.len() && players[i].id == id
}

/// Stored games carry pairwise distinct ids.
pub open spec fn games_wf(games: Seq<GameModel>) -> bool {
    forall|i: int, j: int| 0 <= i < j < games.len() ==> games[i].id != games[j].id
}

/// Stored players carry pairwise distinct ids.
pub open spec fn players_wf(players: Seq<PlayerModel>) -> bool {
    forall|i: int, j: int| 0 <= i < j < players.len() ==> players[i].id != players[j].id
}

/// Ordered by case-insensitive name, ties in any order.
pub open spec fn sorted_by_name_ci(players: Seq<PlayerModel>) -> bool {
    forall|i: int, j: int| 0 <= i < j < players.len() ==> lex_le(
        lower_of(players[i].name),
        lower_of(players[j].name),
    )
}

/// Ordered by descending id (newest first).
pub open spec fn sorted_by_id_desc(games: Seq<GameModel>) -> bool {
    forall|i: int, j: int| 0 <= i < j < games.len() ==> games[i].id >= games[j].id
}

/// `Repo` describes the methods required for a `Service` repository.
///
/// A verified implementation overrides the two spec functions with its own
/// model; an outside, unverified backend inherits the defaults, under which
/// every contract below speaks of an empty store.
pub trait Repo: Sized {
    /// The stored players, in storage order.
    open spec fn players(&self) -> Seq<PlayerModel> {
        Seq::empty()
    }

    /// The stored games, in storage order.
    open spec fn games(&self) -> Seq<GameModel> {
        Seq::empty()
    }

    fn count_players(&self) -> (r: Result<usize, Error>)
        requires
            players_wf(self.players()),
            games_wf(self.games()),
        ensures
            r matches Ok(n) ==> n == self.players().len(),
            r matches Err(e) ==> e is Internal,
    ;

    /// Every stored player, ordered by case-insensitive name.
    fn list_players(&self) -> (r: Result<Vec<Player>, Error>)
        requires
            players_wf(self.players()),
            games_wf(self.games()),
        ensures
            r matches Ok(v) ==> players_view(v@).to_multiset() == self.players().to_multiset()
                && sorted_by_name_ci(players_view(v@)),
            r matches Err(e) ==> e is Internal,
    ;

    /// A new player under the next id (the stored count), with zeroed stats.
    fn create_player(&mut self, number: u32, name: String) -> (r: Result<Player, Error>)
        requires
            players_wf(old(self).players()),
            games_wf(old(self).games()),
        ensures
            players_wf(final(self).players()),
            games_wf(final(self).games()),
            r matches Ok(p) ==> {
                &&& old(self).players().len() <= u32::MAX
                &&& p@ == (PlayerModel {
                    id: old(self).players().len() as u32,
                    name: name@,
                    number,
                    play_count: 0,
                    play_start_time: None,
                    play_duration: 0,
                })
                &&& !has_player(old(self).players(), p@.id)
                &&& final(self).players() == old(self).players().push(p@)
                &&& final(self).games() == old(self).games()
            },
            r matches Err(e) ==> {
                &&& e is Conflict || e is Internal
                &&& (e is Conflict ==> has_player(
                    old(self).players(),
                    old(self).players().len() as u32,
                ))
                &&& final(self).players() == old(self).players()
                &&& final(self).games() == old(self).games()
            },
    ;

    fn get_player(&self, player_id: &u32) -> (r: Result<Player, Error>)
        requires
            players_wf(self.players()),
            games_wf(self.games()),
        ensures
            r matches Ok(p) ==> p@.id == *player_id && exists|i: int|
                0 <= i < self.players().len() && self.players()[i] == p@,
            r matches Err(e) ==> e is NotFound || e is Internal,
            r matches Err(e) && e is NotFound ==> !has_player(self.players(), *player_id),
    ;

    /// Replace the stored player carrying `player`'s id.
    fn update_player(&mut self, player: Player) -> (r: Result<(), Error>)
        requires
            players_wf(old(self).players()),
            games_wf(old(self).games()),
        ensures
            players_wf(final(self).players()),
            games_wf(final(self).games()),
            r matches Ok(u) ==> exists|i: int|
                0 <= i < old(self).players().len() && old(self).players()[i].id == player@.id
                    && final(self).players() == old(self).players().update(i, player@),
            r matches Ok(u) ==> final(self).games() == old(self).games(),
            r matches Err(e) ==> {
                &&& e is NotFound || e is Internal
                &&& (e is NotFound ==> !has_player(old(self).players(), player@.id))
                &&& final(self).players() == old(self).players()
                &&& final(self).games() == old(self).games()
            },
    ;

    fn delete_player(&mut self, player_id: &u32) -> (r: Result<(), Error>)
        requires
            players_wf(old(self).players()),
            games_wf(old(self).games()),
        ensures
            players_wf(final(self).players()),
            games_wf(final(self).games()),
            r matches Ok(u) ==> exists|i: int|
                0 <= i < old(self).players().len() && old(self).players()[i].id == *player_id
                    && final(self).players() == old(self).players().remove(i),
            r matches Ok(u) ==> final(self).games() == old(self).games(),
            r matches Err(e) ==> {
                &&& e is NotFound || e is Internal
                &&& (e is NotFound ==> !has_player(old(self).players(), *player_id))
                &&& final(self).players() == old(self).players()
                &&& final(self).games() == old(self).games()
            },
    ;

    fn count_games(&self) -> (r: Result<usize, Error>)
        requires
            players_wf(self.players()),
            games_wf(self.games()),
        ensures
            r matches Ok(n) ==> n == self.games().len(),
            r matches Err(e) ==> e is Internal,
    ;

    /// Every stored game, newest id first.
    fn list_games(&self) -> (r: Result<Vec<Game>, Error>)
        requires
            players_wf(self.players()),
            games_wf(self.games()),
        ensures
            r matches Ok(v) ==> games_view(v@).to_multiset() == self.games().to_multiset()
                && sorted_by_id_desc(games_view(v@)),
            r matches Err(e) ==> e is Internal,
    ;

    /// Store a new game; its id must not be in use yet.
    fn create_game(&mut self, game: Game) -> (r: Result<(), Error>)
        requires
            players_wf(old(self).players()),
            games_wf(old(self).games()),
        ensures
            players_wf(final(self).players()),
            games_wf(final(self).games()),
            r matches Ok(u) ==> {
                &&& !has_game(old(self).games(), game@.id)
                &&& final(self).games() == old(self).games().push(game@)
                &&& final(self).players() == old(self).players()
            },
            r matches Err(e) ==> {
                &&& e is Conflict || e is Internal
                &&& (e is Conflict ==> has_game(old(self).games(), game@.id))
                &&& final(self).players() == old(self).players()
                &&& final(self).games() == old(self).games()
            },
    ;

    fn get_game(&self, game_id: &u32) -> (r: Result<Game, Error>)
        requires
            players_wf(self.players()),
            games_wf(self.games()),
        ensures
            r matches Ok(g) ==> g@.id == *game_id && exists|i: int|
                0 <= i < self.games().len() && self.games()[i] == g@,
            r matches Err(e) ==> e is NotFound || e is Internal,
            r matches Err(e) && e is NotFound ==> !has_game(self.games(), *game_id),
    ;

    /// Replace the stored game carrying `game`'s id.
    fn update_game(&mut self, game: Game) -> (r: Result<(), Error>)
        requires
            players_wf(old(self).players()),
            games_wf(old(self).games()),
        ensures
            players_wf(final(self).players()),
            games_wf(final(self).games()),
            r matches Ok(u) ==> exists|i: int|
                0 <= i < old(self).games().len() && old(self).games()[i].id == game@.id
                    && final(self).games() == old(self).games().update(i, game@),
            r matches Ok(u) ==> final(self).players() == old(self).players(),
            r matches Err(e) ==> {
                &&& e is NotFound || e is Internal
                &&& (e is NotFound ==> !has_game(old(self).games(), game@.id))
                &&& final(self).players() == old(self).players()
                &&& final(self).games() == old(self).games()
            },
    ;

    fn delete_game(&mut self, game_id: &u32) -> (r: Result<(), Error>)
        requires
            players_wf(old(self).players()),
            games_wf(old(self).games()),
        ensures
            players_wf(final(self).players()),
            games_wf(final(self).games()),
            r matches Ok(u) ==> exists|i: int|
                0 <= i < old(self).games().len() && old(self).games()[i].id == *game_id
                    && final(self).games() == old(self).games().remove(i),
            r matches Ok(u) ==> final(self).players() == old(self).players(),
            r matches Err(e) ==> {
                &&& e is NotFound || e is Internal
                &&& (e is NotFound ==> !has_game(old(self).games(), *game_id))
                &&& final(self).players() == old(self).players()
                &&& final(self).games() == old(self).games()
            },
    ;
}

} // verus!
