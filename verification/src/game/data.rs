//! The mutable payload shared across all phases of a game: the period list,
//! the roster snapshot and the MVP selection.

use crate::player::{Player, PlayerModel};
use vstd::prelude::*;

verus! {

/// `Period` represents time sections of a `Game`. In football/soccer 'half'
/// might be the official term but here we use `Period` for all.
///
/// A period is open while `end_time` is `None` and closed once it is set.
#[derive(Clone, Copy, Debug)]
pub struct Period {
    pub start_time: u64,
    pub end_time: Option<u64>,
}

impl Period {
    pub fn new(start_time: u64) -> (r: Self)
        ensures
            r == (Period { start_time, end_time: None }),
    {
        Self { start_time, end_time: None }
    }

    pub fn finish(&mut self, end_time: u64)
        ensures
            *final(self) == (Period { start_time: old(self).start_time, end_time: Some(end_time) }),
    {
        self.end_time = Some(end_time);
    }
}

/// The mathematical value of a `Data`: periods as they are, players by
/// their models.
pub struct DataModel {
    pub periods: Seq<Period>,
    pub players: Seq<PlayerModel>,
    pub mvp: Option<u32>,
}

/// The models of a roster, in roster order.
pub open spec fn players_view(players: Seq<Player>) -> Seq<PlayerModel> {
    players.map_values(|p: Player| p@)
}

/// `Data` represents the unique data per game.
#[derive(Debug)]
pub struct Data {
    pub periods: Vec<Period>,
    pub players: Vec<Player>,
    pub mvp: Option<u32>,
}

impl View for Data {
    type V = DataModel;

    open spec fn view(&self) -> DataModel {
        DataModel { periods: self.periods@, players: players_view(self.players@), mvp: self.mvp }
    }
}

/// A copy of a roster, equal to it model for model.
pub fn clone_players(players: &Vec<Player>) -> (r: Vec<Player>)
    ensures
        players_view(r@) == players_view(players@),
{
    let mut r: Vec<Player> = Vec::new();
    let mut i: usize = 0;
    while i < players.len()
        invariant
            i <= players.len(),
            r@.len() == i,
            forall|j: int| 0 <= j < i ==> r@[j]@ == players@[j]@,
        decreases players.len() - i,
    {
        r.push(players[i].clone());
        i = i + 1;
    }
    proof {
        assert(players_view(r@) =~= players_view(players@));
    }
    r
}

fn clone_periods(periods: &Vec<Period>) -> (r: Vec<Period>)
    ensures
        r@ == periods@,
{
    let mut r: Vec<Period> = Vec::new();
    let mut i: usize = 0;
    while i < periods.len()
        invariant
            i <= periods.len(),
            r@ =~= periods@.subrange(0, i as int),
        decreases periods.len() - i,
    {
        r.push(periods[i]);
        i = i + 1;
    }
    proof {
        assert(r@ =~= periods@);
    }
    r
}

impl Clone for Data {
    fn clone(&self) -> (r: Self)
        ensures
            r@ == self@,
    {
        Data {
            periods: clone_periods(&self.periods),
            players: clone_players(&self.players),
            mvp: self.mvp,
        }
    }
}

/// The period list with its most recent period closed at `end_time`;
/// unchanged when no period exists.
pub open spec fn spec_close_last_period(periods: Seq<Period>, end_time: u64) -> Seq<Period> {
    if periods.len() > 0 {
        periods.update(
            periods.len() - 1,
            Period { start_time: periods.last().start_time, end_time: Some(end_time) },
        )
    } else {
        periods
    }
}

} // verus!
