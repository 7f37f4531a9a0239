//! `player` holds the `Player` record with its substitution and play-time
//! accounting, and the read-only `PlayerView` projection.

mod record;
mod view;

pub use record::{interval_len, Player, PlayerModel, SubCmd};
pub use record::{spec_add_stats, spec_apply_cmd, spec_apply_cmds, spec_completed_gain};
pub use record::{spec_reset_stats, spec_sub_off, spec_sub_on};
pub use record::{
    lemma_play_duration_monotonic, lemma_play_duration_sum, lemma_sub_on_idempotent,
};
pub use view::{into_player_views, spec_player_view, PlayerView, PlayerViewModel};
