//! The `Player` record: identity, on-court status and cumulative play stats.
//!
//! Timestamps are milliseconds of Unix time; durations are milliseconds.
//! Every operation takes the current instant as an argument, so one logical
//! instant covers a whole operation and the behaviour is reproducible.

use vstd::prelude::*;

verus! {

/// The mathematical value of a `Player`: the same fields, with the name as a
/// sequence of characters.
pub struct PlayerModel {
    pub id: u32,
    pub name: Seq<char>,
    pub number: u32,
    pub play_count: u32,
    pub play_start_time: Option<u64>,
    pub play_duration: u64,
}

/// `Player` represents each participant in the team being managed.
///
/// Invariant kept by the operations below: `play_start_time` is set iff the
/// player is currently on court. `play_count` grows once per sub-on;
/// `play_duration` grows only on sub-off, by the length of the completed
/// interval. Both counters saturate at their type's maximum instead of
/// wrapping, so neither ever decreases.
#[derive(Debug)]
pub struct Player {
    pub id: u32,
    pub name: String,
    pub number: u32,
    pub play_count: u32,
    pub play_start_time: Option<u64>,
    pub play_duration: u64,
}

impl View for Player {
    type V = PlayerModel;

    open spec fn view(&self) -> PlayerModel {
        PlayerModel {
            id: self.id,
            name: self.name@,
            number: self.number,
            play_count: self.play_count,
            play_start_time: self.play_start_time,
            play_duration: self.play_duration,
        }
    }
}

impl Clone for Player {
    fn clone(&self) -> (r: Self)
        ensures
            r@ == self@,
    {
        Player {
            id: self.id,
            name: self.name.clone(),
            number: self.number,
            play_count: self.play_count,
            play_start_time: self.play_start_time,
            play_duration: self.play_duration,
        }
    }
}

/// `a + b`, stuck at `u32::MAX` instead of wrapping.
pub open spec fn sat_add_u32(a: u32, b: u32) -> u32 {
    if a + b <= u32::MAX {
        (a + b) as u32
    } else {
        u32::MAX
    }
}

/// `a + b`, stuck at `u64::MAX` instead of wrapping.
pub open spec fn sat_add_u64(a: u64, b: u64) -> u64 {
    if a + b <= u64::MAX {
        (a + b) as u64
    } else {
        u64::MAX
    }
}

/// The length of the interval from `st` to `now`, or zero when `now`
/// lies before `st`.
pub open spec fn interval_len(st: u64, now: u64) -> u64 {
    if now >= st {
        (now - st) as u64
    } else {
        0
    }
}

/// What `sub_on` does: a no-op when already playing, otherwise one more
/// play and the clock started at `now`.
pub open spec fn spec_sub_on(p: PlayerModel, now: u64) -> PlayerModel {
    if p.play_start_time is Some {
        p
    } else {
        PlayerModel {
            play_count: sat_add_u32(p.play_count, 1),
            play_start_time: Some(now),
            ..p
        }
    }
}

/// What `sub_off` does: a no-op when not playing, otherwise the completed
/// interval added to `play_duration` and the clock cleared.
pub open spec fn spec_sub_off(p: PlayerModel, now: u64) -> PlayerModel {
    match p.play_start_time {
        Some(st) => PlayerModel {
            play_duration: sat_add_u64(p.play_duration, interval_len(st, now)),
            play_start_time: None,
            ..p
        },
        None => p,
    }
}

/// What `add_stats` does: both cumulative totals grow unconditionally.
pub open spec fn spec_add_stats(p: PlayerModel, play_count: u32, play_duration: u64) -> PlayerModel {
    PlayerModel {
        play_count: sat_add_u32(p.play_count, play_count),
        play_duration: sat_add_u64(p.play_duration, play_duration),
        ..p
    }
}

/// What `reset_stats` does: identity preserved, accounting zeroed.
pub open spec fn spec_reset_stats(p: PlayerModel) -> PlayerModel {
    PlayerModel {
        play_count: 0,
        play_start_time: None,
        play_duration: 0,
        ..p
    }
}

impl Player {
    pub fn new(id: u32, number: u32, name: String) -> (r: Self)
        ensures
            r@ == (PlayerModel {
                id,
                name: name@,
                number,
                play_count: 0,
                play_start_time: None,
                play_duration: 0,
            }),
    {
        Self {
            id,
            name,
            number,
            play_count: 0,
            play_start_time: None,
            play_duration: 0,
        }
    }

    pub fn is_playing(&self) -> (r: bool)
        ensures
            r == (self@.play_start_time is Some),
    {
        self.play_start_time.is_some()
    }

    /// Substitute the player onto the court at instant `now`.
    pub fn sub_on(&mut self, now: u64)
        ensures
            final(self)@ == spec_sub_on(old(self)@, now),
    {
        // can't sub on someone already on court
        if self.is_playing() {
            return;
        }

        if self.play_count < u32::MAX {
            self.play_count = self.play_count + 1;
        }
        self.play_start_time = Some(now);
    }

    /// Substitute the player off the court at instant `now`.
    pub fn sub_off(&mut self, now: u64)
        ensures
            final(self)@ == spec_sub_off(old(self)@, now),
    {
        match self.play_start_time {
            Some(st) => {
                let delta: u64 = if now >= st {
                    now - st
                } else {
                    0
                };
                if self.play_duration <= u64::MAX - delta {
                    self.play_duration = self.play_duration + delta;
                } else {
                    self.play_duration = u64::MAX;
                }
                self.play_start_time = None;
            },
            None => {},
        }
    }

    /// Fold a finished game's per-game stats into this cumulative record.
    pub fn add_stats(&mut self, play_count: u32, play_duration: u64)
        ensures
            final(self)@ == spec_add_stats(old(self)@, play_count, play_duration),
    {
        if self.play_count <= u32::MAX - play_count {
            self.play_count = self.play_count + play_count;
        } else {
            self.play_count = u32::MAX;
        }
        if self.play_duration <= u64::MAX - play_duration {
            self.play_duration = self.play_duration + play_duration;
        } else {
            self.play_duration = u64::MAX;
        }
    }

    /// A copy with identity fields preserved and all accounting zeroed,
    /// as used when snapshotting the roster for a new game.
    pub fn reset_stats(&self) -> (r: Self)
        ensures
            r@ == spec_reset_stats(self@),
    {
        Self {
            id: self.id,
            name: self.name.clone(),
            number: self.number,
            play_count: 0,
            play_duration: 0,
            play_start_time: None,
        }
    }
}

/// One substitution command with its instant, for stating laws about
/// whole call sequences.
pub enum SubCmd {
    On(u64),
    Off(u64),
}

/// The effect of one substitution command.
pub open spec fn spec_apply_cmd(p: PlayerModel, c: SubCmd) -> PlayerModel {
    match c {
        SubCmd::On(t) => spec_sub_on(p, t),
        SubCmd::Off(t) => spec_sub_off(p, t),
    }
}

/// The effect of a sequence of substitution commands, applied in order.
pub open spec fn spec_apply_cmds(p: PlayerModel, cs: Seq<SubCmd>) -> PlayerModel
    decreases cs.len(),
{
    if cs.len() == 0 {
        p
    } else {
        spec_apply_cmd(spec_apply_cmds(p, cs.drop_last()), cs.last())
    }
}

/// The summed length of the intervals that the command sequence completes:
/// each `Off` that finds the player on court contributes the length of the
/// interval it closes.
pub open spec fn spec_completed_gain(p: PlayerModel, cs: Seq<SubCmd>) -> int
    decreases cs.len(),
{
    if cs.len() == 0 {
        0
    } else {
        spec_completed_gain(p, cs.drop_last()) + cmd_gain(
            spec_apply_cmds(p, cs.drop_last()),
            cs.last(),
        )
    }
}

/// The interval length that one command completes in state `q`.
pub open spec fn cmd_gain(q: PlayerModel, c: SubCmd) -> int {
    match c {
        SubCmd::On(_) => 0,
        SubCmd::Off(t) => match q.play_start_time {
            Some(st) => interval_len(st, t) as int,
            None => 0,
        },
    }
}

/// Substituting a player on twice in a row yields the same state as doing it
/// once: the second call finds the player already on court and is a no-op.
pub proof fn lemma_sub_on_idempotent(p: PlayerModel, t1: u64, t2: u64)
    ensures
        spec_sub_on(spec_sub_on(p, t1), t2) == spec_sub_on(p, t1),
{
}

/// Over any sequence of substitution commands, `play_duration` never
/// decreases.
pub proof fn lemma_play_duration_monotonic(p: PlayerModel, cs: Seq<SubCmd>)
    ensures
        spec_apply_cmds(p, cs).play_duration >= p.play_duration,
    decreases cs.len(),
{
    if cs.len() > 0 {
        lemma_play_duration_monotonic(p, cs.drop_last());
    }
}

/// Each command contributes a non-negative completed interval.
proof fn lemma_completed_gain_nonneg(p: PlayerModel, cs: Seq<SubCmd>)
    ensures
        spec_completed_gain(p, cs) >= 0,
    decreases cs.len(),
{
    if cs.len() > 0 {
        lemma_completed_gain_nonneg(p, cs.drop_last());
    }
}

/// Over any sequence of substitution commands whose completed intervals do
/// not overflow the counter, the final `play_duration` equals the starting
/// one plus the summed lengths of all completed intervals.
pub proof fn lemma_play_duration_sum(p: PlayerModel, cs: Seq<SubCmd>)
    requires
        p.play_duration + spec_completed_gain(p, cs) <= u64::MAX,
    ensures
        spec_apply_cmds(p, cs).play_duration == p.play_duration + spec_completed_gain(p, cs),
    decreases cs.len(),
{
    if cs.len() > 0 {
        let prefix = cs.drop_last();
        lemma_completed_gain_nonneg(p, prefix);
        lemma_play_duration_sum(p, prefix);
    }
}

} // verus!
