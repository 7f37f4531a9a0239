//! `PlayerView` is a read-only view of a `Player` for presentation layers.

use super::record::{Player, PlayerModel};
use crate::timefmt::{duration_str, spec_duration_str};
use vstd::prelude::*;
use vstd::string::StringExecFns;

verus! {

/// The mathematical value of a `PlayerView`.
pub struct PlayerViewModel {
    pub id: u32,
    pub number: u32,
    pub name: Seq<char>,
    pub play_count: u32,
    pub playing: bool,
    pub play_start_time: Option<u64>,
    pub play_duration: u64,
}

/// The view a player projects to.
pub open spec fn spec_player_view(p: PlayerModel) -> PlayerViewModel {
    PlayerViewModel {
        id: p.id,
        number: p.number,
        name: p.name,
        play_count: p.play_count,
        playing: p.play_start_time is Some,
        play_start_time: p.play_start_time,
        play_duration: p.play_duration,
    }
}

/// `PlayerView` is a read-only view of a `Player` with useful data provided
/// as struct fields and via helper methods. It is intended for use in HTML
/// and other presentation layers.
pub struct PlayerView {
    pub id: u32,
    pub number: u32,
    pub name: String,
    pub play_count: u32,
    pub playing: bool,
    pub play_start_time: Option<u64>,
    pub play_duration: u64,
}

impl View for PlayerView {
    type V = PlayerViewModel;

    open spec fn view(&self) -> PlayerViewModel {
        PlayerViewModel {
            id: self.id,
            number: self.number,
            name: self.name@,
            play_count: self.play_count,
            playing: self.playing,
            play_start_time: self.play_start_time,
            play_duration: self.play_duration,
        }
    }
}

impl PlayerView {
    /// The player's cumulative play time, as `<minutes>m <seconds>s`.
    pub fn total_duration(&self) -> (r: String)
        ensures
            r@ == spec_duration_str(self.play_duration),
    {
        duration_str(self.play_duration)
    }

    /// How long the player has been on court as of instant `now`, as
    /// `<minutes>m <seconds>s`, or `-` when off court.
    pub fn current_period_duration(&self, now: u64) -> (r: String)
        ensures
            r@ == match self.play_start_time {
                Some(st) => spec_duration_str(crate::player::interval_len(st, now)),
                None => seq!['-'],
            },
    {
        match self.play_start_time {
            Some(st) => {
                let delta: u64 = if now >= st {
                    now - st
                } else {
                    0
                };
                duration_str(delta)
            },
            None => {
                let r = String::from_str("-");
                proof {
                    reveal_strlit("-");
                    assert(r@ =~= seq!['-']);
                }
                r
            },
        }
    }

    /// The view of one player.
    pub fn of_player(player: &Player) -> (r: Self)
        ensures
            r@ == spec_player_view(player@),
    {
        Self {
            id: player.id,
            number: player.number,
            name: player.name.clone(),
            play_count: player.play_count,
            play_duration: player.play_duration,
            play_start_time: player.play_start_time,
            playing: player.is_playing(),
        }
    }
}

impl From<&Player> for PlayerView {
    fn from(player: &Player) -> (r: PlayerView) {
        PlayerView {
            id: player.id,
            number: player.number,
            name: player.name.clone(),
            play_count: player.play_count,
            play_duration: player.play_duration,
            play_start_time: player.play_start_time,
            playing: player.is_playing(),
        }
    }
}

impl vstd::std_specs::convert::FromSpecImpl<&Player> for PlayerView {
    open spec fn obeys_from_spec() -> bool {
        true
    }

    open spec fn from_spec(player: &Player) -> PlayerView {
        PlayerView {
            id: player.id,
            number: player.number,
            name: player.name,
            play_count: player.play_count,
            playing: player.play_start_time is Some,
            play_start_time: player.play_start_time,
            play_duration: player.play_duration,
        }
    }
}

/// `into_player_views` is a helper function to simplify converting a vector
/// of `Player`s into `PlayerView`s.
pub fn into_player_views(players: Vec<Player>) -> (r: Vec<PlayerView>)
    ensures
        r@.len() == players@.len(),
        forall|i: int| 0 <= i < r@.len() ==> r@[i]@ == spec_player_view(players@[i]@),
{
    let mut r: Vec<PlayerView> = Vec::new();
    let mut i: usize = 0;
    while i < players.len()
        invariant
            i <= players@.len(),
            r@.len() == i,
            forall|j: int| 0 <= j < i ==> r@[j]@ == spec_player_view(players@[j]@),
        decreases players@.len() - i,
    {
        r.push(PlayerView::of_player(&players[i]));
        i = i + 1;
    }
    r
}

} // verus!
