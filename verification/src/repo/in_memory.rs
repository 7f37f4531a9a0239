//! `InMemoryRepo` provides an in-memory `Repo` implementation backed by
//! plain vectors with pairwise distinct ids. Returned values are clones.

use super::contract::{
    games_view, games_wf, has_game, has_player, players_wf, sorted_by_id_desc,
    sorted_by_name_ci, Repo,
};
use crate::error::Error;
use crate::game::{clone_players, players_view, Game, GameModel};
use crate::player::{Player, PlayerModel};
use crate::text::{le_ci, lemma_lex_le_refl, lemma_lex_le_total, lemma_lex_le_trans, lex_le, lower_of};
use vstd::multiset::Multiset;
use vstd::prelude::*;
use vstd::string::StringExecFns;

verus! {

broadcast use {vstd::seq_lib::group_to_multiset_ensures, vstd::multiset::group_multiset_axioms};

/// The in-memory store: the games and players it holds, ids pairwise
/// distinct.
pub struct InMemoryRepo {
    games: Vec<Game>,
    players: Vec<Player>,
}

impl InMemoryRepo {
    pub fn new() -> (r: Self)
        ensures
            players_wf(r.players()),
            games_wf(r.games()),
            r.players() == Seq::<PlayerModel>::empty(),
            r.games() == Seq::<GameModel>::empty(),
    {
        let r = Self { games: Vec::new(), players: Vec::new() };
        proof {
            assert(r.players() =~= Seq::<PlayerModel>::empty());
            assert(r.games() =~= Seq::<GameModel>::empty());
        }
        r
    }
}

impl Default for InMemoryRepo {
    fn default() -> (r: Self)
        ensures
            players_wf(r.players()),
            games_wf(r.games()),
            r.players() == Seq::<PlayerModel>::empty(),
            r.games() == Seq::<GameModel>::empty(),
    {
        Self::new()
    }
}

/// A copy of a game list, equal to it model for model.
#[verifier::loop_isolation(false)]
fn clone_games(games: &Vec<Game>) -> (r: Vec<Game>)
    ensures
        games_view(r@) == games_view(games@),
{
    let mut r: Vec<Game> = Vec::new();
    let mut i: usize = 0;
    while i < games.len()
        invariant
            i <= games.len(),
            r@.len() == i,
            forall|j: int| 0 <= j < i ==> r@[j]@ == games@[j]@,
        decreases games.len() - i,
    {
        r.push(games[i].clone());
        i = i + 1;
    }
    proof {
        assert(games_view(r@) =~= games_view(games@));
    }
    r
}

/// Sort a roster by case-insensitive name: repeatedly move a least element
/// of what is left to the output.
#[verifier::loop_isolation(false)]
fn sort_players_by_name(players: Vec<Player>) -> (r: Vec<Player>)
    ensures
        players_view(r@).to_multiset() == players_view(players@).to_multiset(),
        sorted_by_name_ci(players_view(r@)),
{
    let mut input = players;
    let mut out: Vec<Player> = Vec::new();
    proof {
        assert(players_view(out@).to_multiset().add(players_view(input@).to_multiset()) =~= players_view(
            players@,
        ).to_multiset());
    }
    while input.len() > 0
        invariant
            players_view(out@).to_multiset().add(players_view(input@).to_multiset())
                == players_view(players@).to_multiset(),
            sorted_by_name_ci(players_view(out@)),
            forall|i: int, j: int|
                0 <= i < out@.len() && 0 <= j < input@.len() ==> lex_le(
                    lower_of(players_view(out@)[i].name),
                    lower_of(players_view(input@)[j].name),
                ),
        decreases input.len(),
    {
        let mut m: usize = 0;
        let mut k: usize = 1;
        proof {
            lemma_lex_le_refl(lower_of(players_view(input@)[0].name));
        }
        while k < input.len()
            invariant
                0 < input@.len(),
                m < k,
                1 <= k <= input@.len(),
                forall|j: int|
                    0 <= j < k ==> lex_le(
                        lower_of(players_view(input@)[m as int].name),
                        lower_of(players_view(input@)[j].name),
                    ),
            decreases input.len() - k,
        {
            if le_ci(&input[k].name, &input[m].name) {
                proof {
                    let pv = players_view(input@);
                    assert forall|j: int| 0 <= j < k + 1 implies lex_le(
                        lower_of(pv[k as int].name),
                        lower_of(pv[j].name),
                    ) by {
                        if j < k {
                            lemma_lex_le_trans(
                                lower_of(pv[k as int].name),
                                lower_of(pv[m as int].name),
                                lower_of(pv[j].name),
                            );
                        } else {
                            lemma_lex_le_refl(lower_of(pv[k as int].name));
                        }
                    }
                }
                m = k;
            } else {
                proof {
                    let pv = players_view(input@);
                    lemma_lex_le_total(
                        lower_of(pv[m as int].name),
                        lower_of(pv[k as int].name),
                    );
                }
            }
            k = k + 1;
        }
        let ghost pre = input@;
        let ghost out_pre = out@;
        let p = input.remove(m);
        proof {
            let pv_pre = players_view(pre);
            let pv_post = players_view(input@);
            assert(pv_post =~= pv_pre.remove(m as int));
            assert(pv_pre.remove(m as int).to_multiset() =~= pv_pre.to_multiset().remove(
                pv_pre[m as int],
            ));
            assert(p@ == pv_pre[m as int]);
            assert(pv_pre.contains(p@)) by {
                assert(pv_pre[m as int] == p@);
            }
            assert(pv_pre.to_multiset().count(p@) > 0);
        }
        out.push(p);
        proof {
            let pv_out = players_view(out@);
            assert(pv_out =~= players_view(out_pre).push(p@));
            assert(pv_out.to_multiset() =~= players_view(out_pre).to_multiset().insert(p@));
            assert(players_view(out@).to_multiset().add(players_view(input@).to_multiset())
                =~= players_view(players@).to_multiset());
        }
    }
    proof {
        assert(players_view(input@).to_multiset() =~= Multiset::<PlayerModel>::empty());
        assert(players_view(out@).to_multiset().add(Multiset::<PlayerModel>::empty())
            =~= players_view(out@).to_multiset());
    }
    out
}

/// Sort games newest id first: repeatedly move a greatest-id element of what
/// is left to the output.
#[verifier::loop_isolation(false)]
fn sort_games_by_id_desc(games: Vec<Game>) -> (r: Vec<Game>)
    ensures
        games_view(r@).to_multiset() == games_view(games@).to_multiset(),
        sorted_by_id_desc(games_view(r@)),
{
    let mut input = games;
    let mut out: Vec<Game> = Vec::new();
    proof {
        assert(games_view(out@).to_multiset().add(games_view(input@).to_multiset())
            =~= games_view(games@).to_multiset());
    }
    while input.len() > 0
        invariant
            games_view(out@).to_multiset().add(games_view(input@).to_multiset()) == games_view(
                games@,
            ).to_multiset(),
            sorted_by_id_desc(games_view(out@)),
            forall|i: int, j: int|
                0 <= i < out@.len() && 0 <= j < input@.len() ==> games_view(out@)[i].id
                    >= games_view(input@)[j].id,
        decreases input.len(),
    {
        let mut m: usize = 0;
        let mut k: usize = 1;
        while k < input.len()
            invariant
                0 < input@.len(),
                m < k,
                1 <= k <= input@.len(),
                forall|j: int|
                    0 <= j < k ==> games_view(input@)[m as int].id >= games_view(input@)[j].id,
            decreases input.len() - k,
        {
            if input[k].id > input[m].id {
                m = k;
            }
            k = k + 1;
        }
        let ghost pre = input@;
        let ghost out_pre = out@;
        let g = input.remove(m);
        proof {
            let gv_pre = games_view(pre);
            let gv_post = games_view(input@);
            assert(gv_post =~= gv_pre.remove(m as int));
            assert(gv_pre.remove(m as int).to_multiset() =~= gv_pre.to_multiset().remove(
                gv_pre[m as int],
            ));
            assert(g@ == gv_pre[m as int]);
            assert(gv_pre.contains(g@)) by {
                assert(gv_pre[m as int] == g@);
            }
            assert(gv_pre.to_multiset().count(g@) > 0);
        }
        out.push(g);
        proof {
            assert(games_view(out@) =~= games_view(out_pre).push(g@));
            assert(games_view(out@).to_multiset() =~= games_view(out_pre).to_multiset().insert(g@));
            assert(games_view(out@).to_multiset().add(games_view(input@).to_multiset())
                =~= games_view(games@).to_multiset());
        }
    }
    proof {
        assert(games_view(input@).to_multiset() =~= Multiset::<GameModel>::empty());
        assert(games_view(out@).to_multiset().add(Multiset::<GameModel>::empty()) =~= games_view(
            out@,
        ).to_multiset());
    }
    out
}

impl Repo for InMemoryRepo {
    closed spec fn players(&self) -> Seq<PlayerModel> {
        players_view(self.players@)
    }

    closed spec fn games(&self) -> Seq<GameModel> {
        games_view(self.games@)
    }

    fn count_players(&self) -> (r: Result<usize, Error>)
        ensures
            r is Ok,
    {
        Ok(self.players.len())
    }

    fn list_players(&self) -> (r: Result<Vec<Player>, Error>)
        ensures
            r is Ok,
    {
        Ok(sort_players_by_name(clone_players(&self.players)))
    }

    #[verifier::loop_isolation(false)]
    fn create_player(&mut self, number: u32, name: String) -> (r: Result<Player, Error>)
        ensures
            r is Ok <==> (old(self).players().len() <= u32::MAX && !has_player(
                old(self).players(),
                old(self).players().len() as u32,
            )),
    {
        if self.players.len() > u32::MAX as usize {
            return Err(Error::Internal(String::from_str("player id space exhausted")));
        }
        let id: u32 = self.players.len() as u32;

        let mut i: usize = 0;
        while i < self.players.len()
            invariant
                i <= self.players@.len(),
                forall|j: int| 0 <= j < i ==> players_view(self.players@)[j].id != id,
            decreases self.players@.len() - i,
        {
            if self.players[i].id == id {
                proof {
                    assert(players_view(self.players@)[i as int].id == id);
                }
                return Err(Error::Conflict);
            }
            i = i + 1;
        }

        let player = Player::new(id, number, name);
        self.players.push(player.clone());
        proof {
            let ps = players_view(old(self).players@);
            let ps2 = players_view(self.players@);
            assert(ps2 =~= ps.push(player@));
            assert forall|a: int, b: int| 0 <= a < b < ps2.len() implies ps2[a].id != ps2[b].id by {
                if b == ps.len() {
                    assert(ps2[a] == ps[a]);
                }
            }
        }
        Ok(player)
    }

    #[verifier::loop_isolation(false)]
    fn get_player(&self, player_id: &u32) -> (r: Result<Player, Error>)
        ensures
            r is Ok <==> has_player(self.players(), *player_id),
    {
        let mut i: usize = 0;
        while i < self.players.len()
            invariant
                i <= self.players@.len(),
                forall|j: int| 0 <= j < i ==> players_view(self.players@)[j].id != *player_id,
            decreases self.players@.len() - i,
        {
            if self.players[i].id == *player_id {
                let p = self.players[i].clone();
                proof {
                    assert(self.players()[i as int] == p@);
                }
                return Ok(p);
            }
            i = i + 1;
        }
        Err(Error::NotFound)
    }

    #[verifier::loop_isolation(false)]
    fn update_player(&mut self, player: Player) -> (r: Result<(), Error>)
        ensures
            r is Ok <==> has_player(old(self).players(), player@.id),
    {
        let mut i: usize = 0;
        while i < self.players.len()
            invariant
                i <= self.players@.len(),
                forall|j: int| 0 <= j < i ==> players_view(self.players@)[j].id != player@.id,
                self.players@ == old(self).players@,
                self.games@ == old(self).games@,
            decreases self.players@.len() - i,
        {
            if self.players[i].id == player.id {
                let ghost pre = self.players@;
                self.players.set(i, player);
                proof {
                    let ps = players_view(pre);
                    let ps2 = players_view(self.players@);
                    assert(ps2 =~= ps.update(i as int, player@));
                    assert(ps[i as int].id == player@.id);
                    assert forall|a: int, b: int|
                        0 <= a < b < ps2.len() implies ps2[a].id != ps2[b].id by {
                        assert(ps[a].id != ps[b].id);
                    }
                }
                return Ok(());
            }
            i = i + 1;
        }
        Err(Error::NotFound)
    }

    #[verifier::loop_isolation(false)]
    fn delete_player(&mut self, player_id: &u32) -> (r: Result<(), Error>)
        ensures
            r is Ok <==> has_player(old(self).players(), *player_id),
    {
        let mut i: usize = 0;
        while i < self.players.len()
            invariant
                i <= self.players@.len(),
                forall|j: int| 0 <= j < i ==> players_view(self.players@)[j].id != *player_id,
                self.players@ == old(self).players@,
                self.games@ == old(self).games@,
            decreases self.players@.len() - i,
        {
            if self.players[i].id == *player_id {
                let ghost pre = self.players@;
                let _removed = self.players.remove(i);
                proof {
                    let ps = players_view(pre);
                    let ps2 = players_view(self.players@);
                    assert(ps2 =~= ps.remove(i as int));
                    assert(ps[i as int].id == *player_id);
                    assert forall|a: int, b: int|
                        0 <= a < b < ps2.len() implies ps2[a].id != ps2[b].id by {
                        let a0 = if a < i { a } else { a + 1 };
                        let b0 = if b < i { b } else { b + 1 };
                        assert(ps2[a] == ps[a0]);
                        assert(ps2[b] == ps[b0]);
                    }
                }
                return Ok(());
            }
            i = i + 1;
        }
        Err(Error::NotFound)
    }

    fn count_games(&self) -> (r: Result<usize, Error>)
        ensures
            r is Ok,
    {
        Ok(self.games.len())
    }

    fn list_games(&self) -> (r: Result<Vec<Game>, Error>)
        ensures
            r is Ok,
    {
        Ok(sort_games_by_id_desc(clone_games(&self.games)))
    }

    #[verifier::loop_isolation(false)]
    fn create_game(&mut self, game: Game) -> (r: Result<(), Error>)
        ensures
            r is Ok <==> !has_game(old(self).games(), game@.id),
    {
        let mut i: usize = 0;
        while i < self.games.len()
            invariant
                i <= self.games@.len(),
                forall|j: int| 0 <= j < i ==> games_view(self.games@)[j].id != game@.id,
                self.games@ == old(self).games@,
                self.players@ == old(self).players@,
            decreases self.games@.len() - i,
        {
            if self.games[i].id == game.id {
                proof {
                    assert(games_view(self.games@)[i as int].id == game@.id);
                }
                return Err(Error::Conflict);
            }
            i = i + 1;
        }
        let ghost gm = game@;
        self.games.push(game);
        proof {
            let gs = games_view(old(self).games@);
            let gs2 = games_view(self.games@);
            assert(gs2 =~= gs.push(gm));
            assert forall|a: int, b: int| 0 <= a < b < gs2.len() implies gs2[a].id != gs2[b].id by {
                if b == gs.len() {
                    assert(gs2[a] == gs[a]);
                }
            }
        }
        Ok(())
    }

    #[verifier::loop_isolation(false)]
    fn get_game(&self, game_id: &u32) -> (r: Result<Game, Error>)
        ensures
            r is Ok <==> has_game(self.games(), *game_id),
    {
        let mut i: usize = 0;
        while i < self.games.len()
            invariant
                i <= self.games@.len(),
                forall|j: int| 0 <= j < i ==> games_view(self.games@)[j].id != *game_id,
            decreases self.games@.len() - i,
        {
            if self.games[i].id == *game_id {
                let g = self.games[i].clone();
                proof {
                    assert(self.games()[i as int] == g@);
                }
                return Ok(g);
            }
            i = i + 1;
        }
        Err(Error::NotFound)
    }

    #[verifier::loop_isolation(false)]
    fn update_game(&mut self, game: Game) -> (r: Result<(), Error>)
        ensures
            r is Ok <==> has_game(old(self).games(), game@.id),
    {
        let mut i: usize = 0;
        while i < self.games.len()
            invariant
                i <= self.games@.len(),
                forall|j: int| 0 <= j < i ==> games_view(self.games@)[j].id != game@.id,
                self.games@ == old(self).games@,
                self.players@ == old(self).players@,
            decreases self.games@.len() - i,
        {
            if self.games[i].id == game.id {
                let ghost pre = self.games@;
                let ghost gm = game@;
                self.games.set(i, game);
                proof {
                    let gs = games_view(pre);
                    let gs2 = games_view(self.games@);
                    assert(gs2 =~= gs.update(i as int, gm));
                    assert(gs[i as int].id == gm.id);
                    assert forall|a: int, b: int|
                        0 <= a < b < gs2.len() implies gs2[a].id != gs2[b].id by {
                        assert(gs[a].id != gs[b].id);
                    }
                }
                return Ok(());
            }
            i = i + 1;
        }
        Err(Error::NotFound)
    }

    #[verifier::loop_isolation(false)]
    fn delete_game(&mut self, game_id: &u32) -> (r: Result<(), Error>)
        ensures
            r is Ok <==> has_game(old(self).games(), *game_id),
    {
        let mut i: usize = 0;
        while i < self.games.len()
            invariant
                i <= self.games@.len(),
                forall|j: int| 0 <= j < i ==> games_view(self.games@)[j].id != *game_id,
                self.games@ == old(self).games@,
                self.players@ == old(self).players@,
            decreases self.games@.len() - i,
        {
            if self.games[i].id == *game_id {
                let ghost pre = self.games@;
                let _removed = self.games.remove(i);
                proof {
                    let gs = games_view(pre);
                    let gs2 = games_view(self.games@);
                    assert(gs2 =~= gs.remove(i as int));
                    assert(gs[i as int].id == *game_id);
                    assert forall|a: int, b: int|
                        0 <= a < b < gs2.len() implies gs2[a].id != gs2[b].id by {
                        let a0 = if a < i { a } else { a + 1 };
                        let b0 = if b < i { b } else { b + 1 };
                        assert(gs2[a] == gs[a0]);
                        assert(gs2[b] == gs[b0]);
                    }
                }
                return Ok(());
            }
            i = i + 1;
        }
        Err(Error::NotFound)
    }
}

} // verus!
