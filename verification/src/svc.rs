//! `svc` contains the main `Service` struct, which can be interacted with to
//! manage sports games: it sequences game transitions, substitution and MVP
//! updates against a storage repository.
//!
//! The repository may always fail internally, so no operation promises
//! success; each states exactly what holds of the stored contents on every
//! outcome. A multi-write operation (`end_game`) does not roll back earlier
//! successful writes: a failure there leaves a documented partial state.
//!
//! Each operation that needs the current instant exists in two forms: an
//! `_at` form that takes the instant as an argument, and one that reads the
//! system clock once and hands it on. One operation sees one instant.

use crate::clock::now_millis;
use crate::error::Error;
use crate::game::{
    event_legal, players_view, spec_game_on_event, DataModel, Event, EventError, Game, GameModel,
};
use crate::player::{spec_add_stats, spec_reset_stats, spec_sub_off, spec_sub_on, Player, PlayerModel};
use crate::repo::{has_game, sorted_by_name_ci, Repo};
use vstd::prelude::*;
use vstd::string::StringExecFns;

verus! {

/// `Service` provides `Game` and `Player` management services, storing data
/// in its repository.
pub struct Service<R: Repo> {
    repo: R,
}

/// Construct a service over the given repository.
pub fn new<R: Repo>(repo: R) -> (r: Service<R>)
    requires
        crate::repo::players_wf(repo.players()),
        crate::repo::games_wf(repo.games()),
    ensures
        r.inv(),
        r.players() == repo.players(),
        r.games() == repo.games(),
{
    Service { repo }
}

/// A roster with every player's accounting zeroed.
pub open spec fn spec_reset_players(players: Seq<PlayerModel>) -> Seq<PlayerModel> {
    players.map_values(|p: PlayerModel| spec_reset_stats(p))
}

/// The stored game under `game_id` was replaced by `g`, which came out of
/// applying `event` to it at instant `now` (and, where `subbed_off` says so,
/// out of then substituting every roster player off).
pub open spec fn transition_applied(
    pre: Seq<GameModel>,
    post: Seq<GameModel>,
    g: GameModel,
    game_id: u32,
    event: Event,
    now: u64,
    subbed_off: bool,
) -> bool {
    exists|i: int|
        {
            &&& 0 <= i < pre.len()
            &&& pre[i].id == game_id
            &&& spec_game_on_event(pre[i], event, now) matches Ok(g1) && g == (if subbed_off {
                spec_sub_off_roster(g1, now)
            } else {
                g1
            })
            &&& post == pre.update(i, g)
        }
}

/// The game with every roster player substituted off at instant `now`.
pub open spec fn spec_sub_off_roster(g: GameModel, now: u64) -> GameModel {
    GameModel {
        shared: DataModel {
            players: g.shared.players.map_values(|p: PlayerModel| spec_sub_off(p, now)),
            ..g.shared
        },
        ..g
    }
}

/// The stored game under `game_id` rejects `event` in its current phase.
pub open spec fn rejected_for(pre: Seq<GameModel>, game_id: u32, event: Event) -> bool {
    exists|i: int| 0 <= i < pre.len() && pre[i].id == game_id && !event_legal(pre[i].state, event)
}

/// The stored game under `game_id` was replaced by `g`, which came out of
/// substituting the first roster player carrying `player_id` on or off at
/// instant `now`.
pub open spec fn roster_sub_applied(
    pre: Seq<GameModel>,
    post: Seq<GameModel>,
    g: GameModel,
    game_id: u32,
    player_id: u32,
    now: u64,
    on: bool,
) -> bool {
    exists|i: int, k: int|
        {
            &&& 0 <= i < pre.len()
            &&& pre[i].id == game_id
            &&& 0 <= k < pre[i].shared.players.len()
            &&& pre[i].shared.players[k].id == player_id
            &&& (forall|j: int| 0 <= j < k ==> pre[i].shared.players[j].id != player_id)
            &&& g == (GameModel {
                shared: (DataModel {
                    players: pre[i].shared.players.update(
                        k,
                        if on {
                            spec_sub_on(pre[i].shared.players[k], now)
                        } else {
                            spec_sub_off(pre[i].shared.players[k], now)
                        },
                    ),
                    ..pre[i].shared
                }),
                ..pre[i]
            })
            &&& post == pre.update(i, g)
        }
}

/// No player of the stored game under `game_id`'s roster carries
/// `player_id`.
pub open spec fn roster_missing(pre: Seq<GameModel>, game_id: u32, player_id: u32) -> bool {
    exists|i: int|
        0 <= i < pre.len() && pre[i].id == game_id && (forall|k: int|
            0 <= k < pre[i].shared.players.len() ==> pre[i].shared.players[k].id != player_id)
}

/// The player store with roster player `p`'s per-game stats folded into
/// the record carrying `p`'s id, or unchanged when no record carries it.
pub open spec fn upd_stats(prev: Seq<PlayerModel>, p: PlayerModel) -> Seq<PlayerModel> {
    if exists|j: int| 0 <= j < prev.len() && prev[j].id == p.id {
        let j = choose|j: int| 0 <= j < prev.len() && prev[j].id == p.id;
        prev.update(j, spec_add_stats(prev[j], p.play_count, p.play_duration))
    } else {
        prev
    }
}

/// The player store after folding the first `n` roster players' per-game
/// stats in, one best-effort read-modify-write each; `mask` records which
/// of those lookups succeeded (a failed one changes nothing).
pub open spec fn fold_masked(
    pre: Seq<PlayerModel>,
    roster: Seq<PlayerModel>,
    mask: Seq<bool>,
    n: int,
) -> Seq<PlayerModel>
    decreases n,
{
    if n <= 0 {
        pre
    } else {
        let prev = fold_masked(pre, roster, mask, n - 1);
        if n - 1 < mask.len() && mask[n - 1] {
            upd_stats(prev, roster[n - 1])
        } else {
            prev
        }
    }
}

/// Folding reads only the first `n` mask entries, so extending the mask
/// changes nothing.
proof fn lemma_fold_masked_extend(
    pre: Seq<PlayerModel>,
    roster: Seq<PlayerModel>,
    mask: Seq<bool>,
    b: bool,
    n: int,
)
    requires
        n <= mask.len(),
    ensures
        fold_masked(pre, roster, mask.push(b), n) == fold_masked(pre, roster, mask, n),
    decreases n,
{
    if n > 0 {
        lemma_fold_masked_extend(pre, roster, mask, b, n - 1);
    }
}

/// The index of the first roster player carrying `player_id`.
fn find_player_idx(players: &Vec<Player>, player_id: u32) -> (r: Option<usize>)
    ensures
        r matches Some(k) ==> k < players@.len() && players_view(players@)[k as int].id == player_id
            && (forall|j: int| 0 <= j < k ==> players_view(players@)[j].id != player_id),
        r is None ==> forall|j: int|
            0 <= j < players@.len() ==> players_view(players@)[j].id != player_id,
{
    let mut k: usize = 0;
    while k < players.len()
        invariant
            k <= players@.len(),
            forall|j: int| 0 <= j < k ==> players_view(players@)[j].id != player_id,
        decreases players@.len() - k,
    {
        if players[k].id == player_id {
            proof {
                assert(players_view(players@)[k as int].id == player_id);
            }
            return Some(k);
        }
        k = k + 1;
    }
    None
}

/// Substitute every roster player off at instant `now`.
fn sub_off_all(game: &mut Game, now: u64)
    ensures
        final(game)@ == spec_sub_off_roster(old(game)@, now),
{
    let mut j: usize = 0;
    while j < game.shared.players.len()
        invariant
            j <= game.shared.players@.len(),
            game.shared.players@.len() == old(game).shared.players@.len(),
            forall|t: int|
                j <= t < game.shared.players@.len() ==> game.shared.players@[t] == old(
                    game,
                ).shared.players@[t],
            forall|t: int|
                0 <= t < j ==> game.shared.players@[t]@ == spec_sub_off(
                    old(game).shared.players@[t]@,
                    now,
                ),
            game.shared.periods@ == old(game).shared.periods@,
            game.shared.mvp == old(game).shared.mvp,
            game.id == old(game).id,
            game.state == old(game).state,
        decreases game.shared.players@.len() - j,
    {
        let mut p = game.shared.players[j].clone();
        p.sub_off(now);
        game.shared.players.set(j, p);
        j = j + 1;
    }
    proof {
        assert(game@.shared.players =~= spec_sub_off_roster(old(game)@, now).shared.players);
        assert(game@.shared.periods =~= spec_sub_off_roster(old(game)@, now).shared.periods);
    }
}

impl<R: Repo> Service<R> {
    /// The stored players.
    pub closed spec fn players(&self) -> Seq<PlayerModel> {
        self.repo.players()
    }

    /// The stored games.
    pub closed spec fn games(&self) -> Seq<GameModel> {
        self.repo.games()
    }

    /// The service's invariant: the stored ids are pairwise distinct.
    pub closed spec fn inv(&self) -> bool {
        crate::repo::players_wf(self.repo.players()) && crate::repo::games_wf(self.repo.games())
    }

    pub fn new(repo: R) -> (r: Self)
        requires
            crate::repo::players_wf(repo.players()),
            crate::repo::games_wf(repo.games()),
        ensures
            r.inv(),
            r.players() == repo.players(),
            r.games() == repo.games(),
    {
        Self { repo }
    }

    /// Every stored player, ordered by case-insensitive name.
    pub fn list_players(&self) -> (r: Result<Vec<Player>, Error>)
        requires
            self.inv(),
        ensures
            r matches Ok(v) ==> players_view(v@).to_multiset() == self.players().to_multiset()
                && sorted_by_name_ci(players_view(v@)),
            r matches Err(e) ==> e is Internal,
    {
        self.repo.list_players()
    }

    /// Create a player under the next free id with zeroed stats.
    pub fn create_player(&mut self, number: u32, name: String) -> (r: Result<Player, Error>)
        requires
            old(self).inv(),
        ensures
            final(self).inv(),
            final(self).games() == old(self).games(),
            r matches Ok(p) ==> {
                &&& p@ == (PlayerModel {
                    id: old(self).players().len() as u32,
                    name: name@,
                    number,
                    play_count: 0,
                    play_start_time: None,
                    play_duration: 0,
                })
                &&& final(self).players() == old(self).players().push(p@)
            },
            r matches Err(e) ==> {
                &&& final(self).players() == old(self).players()
                &&& e is Conflict || e is Internal
                &&& (e is Conflict ==> crate::repo::has_player(
                    old(self).players(),
                    old(self).players().len() as u32,
                ))
            },
    {
        let player = self.repo.create_player(number, name)?;
        Ok(player)
    }

    pub fn get_player(&self, player_id: &u32) -> (r: Result<Player, Error>)
        requires
            self.inv(),
        ensures
            r matches Ok(p) ==> p@.id == *player_id && exists|i: int|
                0 <= i < self.players().len() && self.players()[i] == p@,
            r matches Err(e) ==> e is NotFound || e is Internal,
            r matches Err(e) && e is NotFound ==> !crate::repo::has_player(
                self.players(),
                *player_id,
            ),
    {
        let r = self.repo.get_player(player_id);
        proof {
            match r {
                Ok(ref p) => {
                    let i = choose|i: int|
                        0 <= i < self.repo.players().len() && self.repo.players()[i] == p@;
                    assert(self.players()[i] == p@);
                },
                Err(_) => {},
            }
        }
        r
    }

    /// Replace the stored player carrying `player`'s id, returning the new
    /// value.
    pub fn update_player(&mut self, player: Player) -> (r: Result<Player, Error>)
        requires
            old(self).inv(),
        ensures
            final(self).inv(),
            final(self).games() == old(self).games(),
            r matches Ok(p) ==> p@ == player@ && exists|i: int|
                0 <= i < old(self).players().len() && old(self).players()[i].id == player@.id
                    && final(self).players() == old(self).players().update(i, player@),
            r matches Err(e) ==> {
                &&& final(self).players() == old(self).players()
                &&& e is NotFound || e is Internal
                &&& (e is NotFound ==> !crate::repo::has_player(old(self).players(), player@.id))
            },
    {
        let ghost pre = self.repo.players();
        match self.repo.update_player(player.clone()) {
            Ok(_u) => {
                proof {
                    let i = choose|i: int|
                        0 <= i < pre.len() && pre[i].id == player@.id && self.repo.players()
                            == pre.update(i, player@);
                    assert(old(self).players()[i].id == player@.id);
                }
                Ok(player)
            },
            Err(e) => Err(e),
        }
    }

    pub fn delete_player(&mut self, player_id: &u32) -> (r: Result<(), Error>)
        requires
            old(self).inv(),
        ensures
            final(self).inv(),
            final(self).games() == old(self).games(),
            r matches Ok(u) ==> exists|i: int|
                0 <= i < old(self).players().len() && old(self).players()[i].id == *player_id
                    && final(self).players() == old(self).players().remove(i),
            r matches Err(e) ==> {
                &&& final(self).players() == old(self).players()
                &&& e is NotFound || e is Internal
                &&& (e is NotFound ==> !crate::repo::has_player(old(self).players(), *player_id))
            },
    {
        let ghost pre = self.repo.players();
        let r = self.repo.delete_player(player_id);
        proof {
            match r {
                Ok(_) => {
                    let i = choose|i: int|
                        0 <= i < pre.len() && pre[i].id == *player_id && self.repo.players()
                            == pre.remove(i);
                    assert(old(self).players()[i].id == *player_id);
                },
                Err(_) => {},
            }
        }
        r
    }

    /// Every stored game, newest id first.
    pub fn list_games(&self) -> (r: Result<Vec<Game>, Error>)
        requires
            self.inv(),
        ensures
            r matches Ok(v) ==> crate::repo::games_view(v@).to_multiset()
                == self.games().to_multiset() && crate::repo::sorted_by_id_desc(
                crate::repo::games_view(v@),
            ),
            r matches Err(e) ==> e is Internal,
    {
        self.repo.list_games()
    }

    /// Create a game under the next id (stored count plus one), with the
    /// roster snapshotted from every stored player, stats zeroed, and the
    /// phase not started.
    pub fn create_game(&mut self) -> (r: Result<Game, Error>)
        requires
            old(self).inv(),
        ensures
            final(self).inv(),
            final(self).players() == old(self).players(),
            r matches Ok(g) ==> {
                &&& old(self).games().len() < u32::MAX
                &&& g@.id == old(self).games().len() + 1
                &&& g@.shared.periods == Seq::<crate::game::Period>::empty()
                &&& g@.shared.mvp == Option::<u32>::None
                &&& g@.state == crate::game::State::NotStarted(crate::game::GamePhase {
                    state: crate::game::NotStartedState {  },
                })
                &&& exists|listed: Seq<PlayerModel>|
                    {
                        &&& listed.to_multiset() == old(self).players().to_multiset()
                        &&& sorted_by_name_ci(listed)
                        &&& g@.shared.players == spec_reset_players(listed)
                    }
                &&& final(self).games() == old(self).games().push(g@)
            },
            r matches Err(e) ==> {
                &&& final(self).games() == old(self).games()
                &&& e is Conflict || e is Internal
                &&& (e is Conflict ==> old(self).games().len() < u32::MAX && has_game(
                    old(self).games(),
                    (old(self).games().len() + 1) as u32,
                ))
            },
    {
        let n = match self.repo.count_games() {
            Ok(n) => n,
            Err(e) => {
                return Err(e);
            },
        };
        if n >= u32::MAX as usize {
            return Err(Error::Internal(String::from_str("game id space exhausted")));
        }
        let next: u32 = (n as u32) + 1;

        let listed = match self.repo.list_players() {
            Ok(v) => v,
            Err(e) => {
                return Err(e);
            },
        };

        let mut roster: Vec<Player> = Vec::new();
        let mut i: usize = 0;
        while i < listed.len()
            invariant
                i <= listed@.len(),
                roster@.len() == i,
                forall|j: int|
                    0 <= j < i ==> roster@[j]@ == spec_reset_stats(players_view(listed@)[j]),
            decreases listed@.len() - i,
        {
            roster.push(listed[i].reset_stats());
            i = i + 1;
        }
        proof {
            assert(players_view(roster@) =~= spec_reset_players(players_view(listed@)));
        }

        let game = Game::new(next, roster);

        match self.repo.create_game(game.clone()) {
            Ok(_u) => Ok(game),
            Err(e) => Err(e),
        }
    }

    pub fn get_game(&self, game_id: &u32) -> (r: Result<Game, Error>)
        requires
            self.inv(),
        ensures
            r matches Ok(g) ==> g@.id == *game_id && exists|i: int|
                0 <= i < self.games().len() && self.games()[i] == g@,
            r matches Err(e) ==> e is NotFound || e is Internal,
            r matches Err(e) && e is NotFound ==> !has_game(self.games(), *game_id),
    {
        let r = self.repo.get_game(game_id);
        proof {
            match r {
                Ok(ref g) => {
                    let i = choose|i: int|
                        0 <= i < self.repo.games().len() && self.repo.games()[i] == g@;
                    assert(self.games()[i] == g@);
                },
                Err(_) => {},
            }
        }
        r
    }

    /// Start the game under `game_id` at instant `now`.
    pub fn start_game_at(&mut self, game_id: &u32, now: u64) -> (r: Result<Game, Error>)
        requires
            old(self).inv(),
        ensures
            final(self).inv(),
            final(self).players() == old(self).players(),
            r matches Ok(g) ==> transition_applied(
                old(self).games(),
                final(self).games(),
                g@,
                *game_id,
                Event::StartGame,
                now,
                false,
            ) && g@.state is InProgress,
            r matches Err(e) ==> {
                &&& final(self).games() == old(self).games()
                &&& e is NotFound || e is InvalidInput || e is Internal
                &&& (e is NotFound ==> !has_game(old(self).games(), *game_id))
                &&& (e is InvalidInput ==> rejected_for(
                    old(self).games(),
                    *game_id,
                    Event::StartGame,
                ))
            },
    {
        self.apply_game_event(game_id, Event::StartGame, now, false)
    }

    /// Start the game under `game_id`, now.
    pub fn start_game(&mut self, game_id: &u32) -> (r: Result<Game, Error>)
        requires
            old(self).inv(),
        ensures
            final(self).inv(),
            final(self).players() == old(self).players(),
            r matches Ok(g) ==> exists|t: u64|
                transition_applied(
                    old(self).games(),
                    final(self).games(),
                    g@,
                    *game_id,
                    Event::StartGame,
                    t,
                    false,
                ) && g@.state is InProgress,
            r matches Err(e) ==> {
                &&& final(self).games() == old(self).games()
                &&& e is NotFound || e is InvalidInput || e is Internal
                &&& (e is NotFound ==> !has_game(old(self).games(), *game_id))
                &&& (e is InvalidInput ==> rejected_for(
                    old(self).games(),
                    *game_id,
                    Event::StartGame,
                ))
            },
    {
        let now = now_millis();
        self.start_game_at(game_id, now)
    }

    /// Start a new period of the paused game under `game_id` at instant
    /// `now`.
    pub fn start_game_period_at(&mut self, game_id: &u32, now: u64) -> (r: Result<Game, Error>)
        requires
            old(self).inv(),
        ensures
            final(self).inv(),
            final(self).players() == old(self).players(),
            r matches Ok(g) ==> transition_applied(
                old(self).games(),
                final(self).games(),
                g@,
                *game_id,
                Event::StartPeriod,
                now,
                false,
            ) && g@.state is InProgress,
            r matches Err(e) ==> {
                &&& final(self).games() == old(self).games()
                &&& e is NotFound || e is InvalidInput || e is Internal
                &&& (e is NotFound ==> !has_game(old(self).games(), *game_id))
                &&& (e is InvalidInput ==> rejected_for(
                    old(self).games(),
                    *game_id,
                    Event::StartPeriod,
                ))
            },
    {
        self.apply_game_event(game_id, Event::StartPeriod, now, false)
    }

    /// Start a new period of the paused game under `game_id`, now.
    pub fn start_game_period(&mut self, game_id: &u32) -> (r: Result<Game, Error>)
        requires
            old(self).inv(),
        ensures
            final(self).inv(),
            final(self).players() == old(self).players(),
            r matches Ok(g) ==> exists|t: u64|
                transition_applied(
                    old(self).games(),
                    final(self).games(),
                    g@,
                    *game_id,
                    Event::StartPeriod,
                    t,
                    false,
                ) && g@.state is InProgress,
            r matches Err(e) ==> {
                &&& final(self).games() == old(self).games()
                &&& e is NotFound || e is InvalidInput || e is Internal
                &&& (e is NotFound ==> !has_game(old(self).games(), *game_id))
                &&& (e is InvalidInput ==> rejected_for(
                    old(self).games(),
                    *game_id,
                    Event::StartPeriod,
                ))
            },
    {
        let now = now_millis();
        self.start_game_period_at(game_id, now)
    }

    /// End the running period of the game under `game_id` at instant `now`;
    /// every roster player is substituted off, so nobody is left on court
    /// while play rests.
    pub fn end_game_period_at(&mut self, game_id: &u32, now: u64) -> (r: Result<Game, Error>)
        requires
            old(self).inv(),
        ensures
            final(self).inv(),
            final(self).players() == old(self).players(),
            r matches Ok(g) ==> transition_applied(
                old(self).games(),
                final(self).games(),
                g@,
                *game_id,
                Event::EndPeriod,
                now,
                true,
            ) && g@.state is Paused,
            r matches Err(e) ==> {
                &&& final(self).games() == old(self).games()
                &&& e is NotFound || e is InvalidInput || e is Internal
                &&& (e is NotFound ==> !has_game(old(self).games(), *game_id))
                &&& (e is InvalidInput ==> rejected_for(
                    old(self).games(),
                    *game_id,
                    Event::EndPeriod,
                ))
            },
    {
        self.apply_game_event(game_id, Event::EndPeriod, now, true)
    }

    /// End the running period of the game under `game_id`, now.
    pub fn end_game_period(&mut self, game_id: &u32) -> (r: Result<Game, Error>)
        requires
            old(self).inv(),
        ensures
            final(self).inv(),
            final(self).players() == old(self).players(),
            r matches Ok(g) ==> exists|t: u64|
                transition_applied(
                    old(self).games(),
                    final(self).games(),
                    g@,
                    *game_id,
                    Event::EndPeriod,
                    t,
                    true,
                ) && g@.state is Paused,
            r matches Err(e) ==> {
                &&& final(self).games() == old(self).games()
                &&& e is NotFound || e is InvalidInput || e is Internal
                &&& (e is NotFound ==> !has_game(old(self).games(), *game_id))
                &&& (e is InvalidInput ==> rejected_for(
                    old(self).games(),
                    *game_id,
                    Event::EndPeriod,
                ))
            },
    {
        let now = now_millis();
        self.end_game_period_at(game_id, now)
    }

    /// Apply `event` to the stored game under `game_id` at instant `now`,
    /// substitute the roster off where `sub_off` says so, and persist the
    /// result.
    fn apply_game_event(&mut self, game_id: &u32, event: Event, now: u64, sub_off: bool) -> (r:
        Result<Game, Error>)
        requires
            old(self).inv(),
        ensures
            final(self).inv(),
            final(self).players() == old(self).players(),
            r matches Ok(g) ==> transition_applied(
                old(self).games(),
                final(self).games(),
                g@,
                *game_id,
                event,
                now,
                sub_off,
            ),
            r matches Err(e) ==> {
                &&& final(self).games() == old(self).games()
                &&& e is NotFound || e is InvalidInput || e is Internal
                &&& (e is NotFound ==> !has_game(old(self).games(), *game_id))
                &&& (e is InvalidInput ==> rejected_for(old(self).games(), *game_id, event))
            },
    {
        let ghost pre_games = self.repo.games();
        let game = match self.repo.get_game(game_id) {
            Ok(g) => g,
            Err(e) => {
                return Err(e);
            },
        };
        let ghost gi = choose|i: int| 0 <= i < pre_games.len() && pre_games[i] == game@;

        let mut game = match game.on_event(event, now) {
            Ok(g) => g,
            Err(e) => {
                proof {
                    crate::game::lemma_dispatch_table(pre_games[gi], event, now);
                }
                return Err(
                    match e {
                        EventError::NoOp => Error::InvalidInput(
                            String::from_str("game state unchanged"),
                        ),
                        EventError::Invalid => Error::InvalidInput(
                            String::from_str("no state change"),
                        ),
                    },
                );
            },
        };
        let ghost transitioned = game@;
        if sub_off {
            sub_off_all(&mut game, now);
        }

        match self.repo.update_game(game.clone()) {
            Ok(_u) => {
                proof {
                    let j = choose|j: int|
                        0 <= j < pre_games.len() && pre_games[j].id == game@.id
                            && self.repo.games() == pre_games.update(j, game@);
                    assert(pre_games[gi].id == *game_id);
                    assert(j == gi);
                    assert(spec_game_on_event(pre_games[gi], event, now) == Ok::<
                        GameModel,
                        EventError,
                    >(transitioned));
                    assert(transition_applied(
                        pre_games,
                        self.repo.games(),
                        game@,
                        *game_id,
                        event,
                        now,
                        sub_off,
                    ));
                }
                Ok(game)
            },
            Err(e) => Err(e),
        }
    }

    /// End the game under `game_id` at instant `now`. Every roster player is
    /// substituted off, the finished game is persisted, and then each roster
    /// player's per-game stats are folded into their persistent record, one
    /// storage read-modify-write per player. Those writes are best effort:
    /// the first failure is surfaced and earlier writes are not rolled back.
    pub fn end_game_at(&mut self, game_id: &u32, now: u64) -> (r: Result<Game, Error>)
        requires
            old(self).inv(),
        ensures
            final(self).inv(),
            r matches Ok(g) ==> {
                &&& transition_applied(
                    old(self).games(),
                    final(self).games(),
                    g@,
                    *game_id,
                    Event::EndGame,
                    now,
                    true,
                )
                &&& g@.state is Finished
                &&& exists|mask: Seq<bool>|
                    final(self).players() == fold_masked(
                        old(self).players(),
                        g@.shared.players,
                        mask,
                        g@.shared.players.len() as int,
                    )
            },
            r matches Err(e) ==> e is NotFound || e is InvalidInput || e is Internal,
            r matches Err(e) ==> {
                ||| {
                    &&& final(self).games() == old(self).games()
                    &&& final(self).players() == old(self).players()
                    &&& (e is NotFound ==> !has_game(old(self).games(), *game_id))
                    &&& (e is InvalidInput ==> rejected_for(
                        old(self).games(),
                        *game_id,
                        Event::EndGame,
                    ))
                }
                ||| exists|g: GameModel, k: int, mask: Seq<bool>|
                    {
                        &&& transition_applied(
                            old(self).games(),
                            final(self).games(),
                            g,
                            *game_id,
                            Event::EndGame,
                            now,
                            true,
                        )
                        &&& 0 <= k <= g.shared.players.len()
                        &&& final(self).players() == fold_masked(
                            old(self).players(),
                            g.shared.players,
                            mask,
                            k,
                        )
                    }
            },
    {
        let ghost pre_players = self.repo.players();
        let game = match self.apply_game_event(game_id, Event::EndGame, now, true) {
            Ok(g) => g,
            Err(e) => {
                return Err(e);
            },
        };
        let ghost post_games = self.repo.games();
        let ghost mut mask: Seq<bool> = Seq::empty();

        let mut i: usize = 0;
        while i < game.shared.players.len()
            invariant
                old(self).inv(),
                self.inv(),
                pre_players == old(self).players(),
                i <= game.shared.players@.len(),
                self.repo.games() == post_games,
                mask.len() == i,
                self.repo.players() == fold_masked(
                    pre_players,
                    game@.shared.players,
                    mask,
                    i as int,
                ),
                transition_applied(
                    old(self).games(),
                    post_games,
                    game@,
                    *game_id,
                    Event::EndGame,
                    now,
                    true,
                ),
                game@.state is Finished,
            decreases game.shared.players@.len() - i,
        {
            let ghost prev = self.repo.players();
            let p_id = game.shared.players[i].id;
            let p_count = game.shared.players[i].play_count;
            let p_dur = game.shared.players[i].play_duration;
            match self.repo.get_player(&p_id) {
                Ok(ep) => {
                    let mut ep = ep;
                    let ghost ep_pre = ep@;
                    ep.add_stats(p_count, p_dur);
                    match self.repo.update_player(ep) {
                        Ok(_u) => {
                            proof {
                                let j1 = choose|j: int| 0 <= j < prev.len() && prev[j] == ep_pre;
                                let j2 = choose|j: int|
                                    0 <= j < prev.len() && prev[j].id == ep_pre.id
                                        && self.repo.players() == prev.update(
                                        j,
                                        spec_add_stats(ep_pre, p_count, p_dur),
                                    );
                                assert(j1 == j2);
                                assert(prev[j2] == ep_pre);
                                lemma_fold_masked_extend(
                                    pre_players,
                                    game@.shared.players,
                                    mask,
                                    true,
                                    i as int,
                                );
                                mask = mask.push(true);
                                let j3 = choose|j: int|
                                    0 <= j < prev.len() && prev[j].id
                                        == game@.shared.players[i as int].id;
                                assert(j3 == j2);
                                assert(upd_stats(prev, game@.shared.players[i as int])
                                    == self.repo.players());
                                assert(self.repo.players() == fold_masked(
                                    pre_players,
                                    game@.shared.players,
                                    mask,
                                    i + 1,
                                ));
                            }
                        },
                        Err(e) => {
                            proof {
                                assert(exists|g: GameModel, k: int, m: Seq<bool>|
                                    {
                                        &&& transition_applied(
                                            old(self).games(),
                                            self.repo.games(),
                                            g,
                                            *game_id,
                                            Event::EndGame,
                                            now,
                                            true,
                                        )
                                        &&& 0 <= k <= g.shared.players.len()
                                        &&& self.repo.players() == fold_masked(
                                            old(self).players(),
                                            g.shared.players,
                                            m,
                                            k,
                                        )
                                    }) by {
                                    assert(self.repo.players() == fold_masked(
                                        old(self).players(),
                                        game@.shared.players,
                                        mask,
                                        i as int,
                                    ));
                                }
                            }
                            return Err(e);
                        },
                    }
                },
                Err(_e) => {
                    proof {
                        lemma_fold_masked_extend(
                            pre_players,
                            game@.shared.players,
                            mask,
                            false,
                            i as int,
                        );
                        mask = mask.push(false);
                        assert(self.repo.players() == fold_masked(
                            pre_players,
                            game@.shared.players,
                            mask,
                            i + 1,
                        ));
                    }
                },
            }
            i = i + 1;
        }
        proof {
            assert(final(self).players() == fold_masked(
                old(self).players(),
                game@.shared.players,
                mask,
                game@.shared.players.len() as int,
            ));
        }
        Ok(game)
    }

    /// End the game under `game_id`, now.
    pub fn end_game(&mut self, game_id: &u32) -> (r: Result<Game, Error>)
        requires
            old(self).inv(),
        ensures
            final(self).inv(),
            r matches Ok(g) ==> g@.state is Finished && exists|t: u64, mask: Seq<bool>|
                transition_applied(
                    old(self).games(),
                    final(self).games(),
                    g@,
                    *game_id,
                    Event::EndGame,
                    t,
                    true,
                ) && final(self).players() == fold_masked(
                    old(self).players(),
                    g@.shared.players,
                    mask,
                    g@.shared.players.len() as int,
                ),
            r matches Err(e) ==> e is NotFound || e is InvalidInput || e is Internal,
    {
        let now = now_millis();
        self.end_game_at(game_id, now)
    }

    /// Substitute the player under `player_id` onto the court in the game
    /// under `game_id`, at instant `now`.
    pub fn sub_player_on_at(&mut self, game_id: &u32, player_id: &u32, now: u64) -> (r: Result<
        Game,
        Error,
    >)
        requires
            old(self).inv(),
        ensures
            final(self).inv(),
            final(self).players() == old(self).players(),
            r matches Ok(g) ==> roster_sub_applied(
                old(self).games(),
                final(self).games(),
                g@,
                *game_id,
                *player_id,
                now,
                true,
            ),
            r matches Err(e) ==> {
                &&& final(self).games() == old(self).games()
                &&& e is NotFound || e is Internal
                &&& (e is NotFound ==> !has_game(old(self).games(), *game_id) || roster_missing(
                    old(self).games(),
                    *game_id,
                    *player_id,
                ))
            },
    {
        self.sub_player(game_id, player_id, now, true)
    }

    /// Substitute the player under `player_id` onto the court, now.
    pub fn sub_player_on(&mut self, game_id: &u32, player_id: &u32) -> (r: Result<Game, Error>)
        requires
            old(self).inv(),
        ensures
            final(self).inv(),
            final(self).players() == old(self).players(),
            r matches Ok(g) ==> exists|t: u64|
                roster_sub_applied(
                    old(self).games(),
                    final(self).games(),
                    g@,
                    *game_id,
                    *player_id,
                    t,
                    true,
                ),
            r matches Err(e) ==> {
                &&& final(self).games() == old(self).games()
                &&& e is NotFound || e is Internal
                &&& (e is NotFound ==> !has_game(old(self).games(), *game_id) || roster_missing(
                    old(self).games(),
                    *game_id,
                    *player_id,
                ))
            },
    {
        let now = now_millis();
        self.sub_player_on_at(game_id, player_id, now)
    }

    /// Substitute the player under `player_id` off the court in the game
    /// under `game_id`, at instant `now`.
    pub fn sub_player_off_at(&mut self, game_id: &u32, player_id: &u32, now: u64) -> (r: Result<
        Game,
        Error,
    >)
        requires
            old(self).inv(),
        ensures
            final(self).inv(),
            final(self).players() == old(self).players(),
            r matches Ok(g) ==> roster_sub_applied(
                old(self).games(),
                final(self).games(),
                g@,
                *game_id,
                *player_id,
                now,
                false,
            ),
            r matches Err(e) ==> {
                &&& final(self).games() == old(self).games()
                &&& e is NotFound || e is Internal
                &&& (e is NotFound ==> !has_game(old(self).games(), *game_id) || roster_missing(
                    old(self).games(),
                    *game_id,
                    *player_id,
                ))
            },
    {
        self.sub_player(game_id, player_id, now, false)
    }

    /// Substitute the player under `player_id` off the court, now.
    pub fn sub_player_off(&mut self, game_id: &u32, player_id: &u32) -> (r: Result<Game, Error>)
        requires
            old(self).inv(),
        ensures
            final(self).inv(),
            final(self).players() == old(self).players(),
            r matches Ok(g) ==> exists|t: u64|
                roster_sub_applied(
                    old(self).games(),
                    final(self).games(),
                    g@,
                    *game_id,
                    *player_id,
                    t,
                    false,
                ),
            r matches Err(e) ==> {
                &&& final(self).games() == old(self).games()
                &&& e is NotFound || e is Internal
                &&& (e is NotFound ==> !has_game(old(self).games(), *game_id) || roster_missing(
                    old(self).games(),
                    *game_id,
                    *player_id,
                ))
            },
    {
        let now = now_millis();
        self.sub_player_off_at(game_id, player_id, now)
    }

    /// Locate the player in the stored game's roster, apply the substitution
    /// at instant `now`, and persist the whole game.
    fn sub_player(&mut self, game_id: &u32, player_id: &u32, now: u64, on: bool) -> (r: Result<
        Game,
        Error,
    >)
        requires
            old(self).inv(),
        ensures
            final(self).inv(),
            final(self).players() == old(self).players(),
            r matches Ok(g) ==> roster_sub_applied(
                old(self).games(),
                final(self).games(),
                g@,
                *game_id,
                *player_id,
                now,
                on,
            ),
            r matches Err(e) ==> {
                &&& final(self).games() == old(self).games()
                &&& e is NotFound || e is Internal
                &&& (e is NotFound ==> !has_game(old(self).games(), *game_id) || roster_missing(
                    old(self).games(),
                    *game_id,
                    *player_id,
                ))
            },
    {
        let ghost pre_games = self.repo.games();
        let mut game = match self.repo.get_game(game_id) {
            Ok(g) => g,
            Err(e) => {
                return Err(e);
            },
        };
        let ghost gi = choose|i: int| 0 <= i < pre_games.len() && pre_games[i] == game@;

        let k = match find_player_idx(&game.shared.players, *player_id) {
            Some(k) => k,
            None => {
                return Err(Error::NotFound);
            },
        };

        let mut p = game.shared.players[k].clone();
        if on {
            p.sub_on(now);
        } else {
            p.sub_off(now);
        }
        let ghost roster_pre = players_view(game.shared.players@);
        game.shared.players.set(k, p);
        proof {
            assert(players_view(game.shared.players@) =~= roster_pre.update(
                k as int,
                if on {
                    spec_sub_on(roster_pre[k as int], now)
                } else {
                    spec_sub_off(roster_pre[k as int], now)
                },
            ));
        }

        match self.repo.update_game(game.clone()) {
            Ok(_u) => {
                proof {
                    let j = choose|j: int|
                        0 <= j < pre_games.len() && pre_games[j].id == game@.id
                            && self.repo.games() == pre_games.update(j, game@);
                    assert(pre_games[gi].id == *game_id);
                    assert(j == gi);
                    assert(game@ == (GameModel {
                        shared: (DataModel {
                            players: pre_games[gi].shared.players.update(
                                k as int,
                                if on {
                                    spec_sub_on(pre_games[gi].shared.players[k as int], now)
                                } else {
                                    spec_sub_off(pre_games[gi].shared.players[k as int], now)
                                },
                            ),
                            ..pre_games[gi].shared
                        }),
                        ..pre_games[gi]
                    }));
                    assert(roster_sub_applied(
                        pre_games,
                        self.repo.games(),
                        game@,
                        *game_id,
                        *player_id,
                        now,
                        on,
                    ));
                }
                Ok(game)
            },
            Err(e) => Err(e),
        }
    }

    /// Select the player under `player_id` as the MVP of the game under
    /// `game_id` and persist the game; the player must stand in the game's
    /// roster.
    pub fn upsert_mvp(&mut self, game_id: &u32, player_id: &u32) -> (r: Result<Game, Error>)
        requires
            old(self).inv(),
        ensures
            final(self).inv(),
            final(self).players() == old(self).players(),
            r matches Ok(g) ==> exists|i: int|
                {
                    &&& 0 <= i < old(self).games().len()
                    &&& old(self).games()[i].id == *game_id
                    &&& crate::repo::has_player(old(self).games()[i].shared.players, *player_id)
                    &&& g@ == (GameModel {
                        shared: (DataModel {
                            mvp: Some(*player_id),
                            ..old(self).games()[i].shared
                        }),
                        ..old(self).games()[i]
                    })
                    &&& final(self).games() == old(self).games().update(i, g@)
                },
            r matches Err(e) ==> {
                &&& final(self).games() == old(self).games()
                &&& e is NotFound || e is Internal
                &&& (e is NotFound ==> !has_game(old(self).games(), *game_id) || roster_missing(
                    old(self).games(),
                    *game_id,
                    *player_id,
                ))
            },
    {
        let ghost pre_games = self.repo.games();
        let mut game = match self.repo.get_game(game_id) {
            Ok(g) => g,
            Err(e) => {
                return Err(e);
            },
        };
        let ghost gi = choose|i: int| 0 <= i < pre_games.len() && pre_games[i] == game@;

        match find_player_idx(&game.shared.players, *player_id) {
            Some(_k) => {},
            None => {
                return Err(Error::NotFound);
            },
        };

        game.shared.mvp = Some(*player_id);

        match self.repo.update_game(game.clone()) {
            Ok(_u) => {
                proof {
                    let j = choose|j: int|
                        0 <= j < pre_games.len() && pre_games[j].id == game@.id
                            && self.repo.games() == pre_games.update(j, game@);
                    assert(pre_games[gi].id == *game_id);
                    assert(j == gi);
                    assert(exists|i: int|
                        {
                            &&& 0 <= i < old(self).games().len()
                            &&& old(self).games()[i].id == *game_id
                            &&& crate::repo::has_player(
                                old(self).games()[i].shared.players,
                                *player_id,
                            )
                            &&& game@ == (GameModel {
                                shared: (DataModel {
                                    mvp: Some(*player_id),
                                    ..old(self).games()[i].shared
                                }),
                                ..old(self).games()[i]
                            })
                            &&& self.repo.games() == old(self).games().update(i, game@)
                        }) by {
                        assert(crate::repo::has_player(pre_games[gi].shared.players, *player_id));
                        assert(game@ == (GameModel {
                            shared: (DataModel { mvp: Some(*player_id), ..pre_games[gi].shared }),
                            ..pre_games[gi]
                        }));
                        assert(self.repo.games() == pre_games.update(gi, game@));
                        assert(old(self).games() == pre_games);
                    }
                }
                Ok(game)
            },
            Err(e) => Err(e),
        }
    }
}

} // verus!
