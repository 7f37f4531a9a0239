//! Player substitution and play-time accounting.

use subbers::Player;

fn player() -> Player {
    Player::new(1, 10, String::from("A"))
}

#[test]
fn new_player_starts_with_zeroed_stats() {
    let p = player();
    assert_eq!(p.id, 1);
    assert_eq!(p.number, 10);
    assert_eq!(p.name, "A");
    assert_eq!(p.play_count, 0);
    assert_eq!(p.play_duration, 0);
    assert!(!p.is_playing());
}

#[test]
fn sub_on_starts_play() {
    let mut p = player();
    p.sub_on(1000);
    assert!(p.is_playing());
    assert_eq!(p.play_count, 1);
    assert_eq!(p.play_start_time, Some(1000));
    assert_eq!(p.play_duration, 0);
}

#[test]
fn sub_on_twice_equals_sub_on_once() {
    let mut once = player();
    once.sub_on(1000);

    let mut twice = player();
    twice.sub_on(1000);
    twice.sub_on(5000);

    assert_eq!(once.play_count, twice.play_count);
    assert_eq!(once.play_start_time, twice.play_start_time);
    assert_eq!(once.play_duration, twice.play_duration);
    assert_eq!(twice.play_count, 1);
}

#[test]
fn sub_off_accumulates_interval() {
    let mut p = player();
    p.sub_on(1000);
    p.sub_off(3000);
    assert!(!p.is_playing());
    assert_eq!(p.play_duration, 2000);
    assert_eq!(p.play_count, 1);
}

#[test]
fn sub_off_when_not_playing_is_a_no_op() {
    let mut p = player();
    p.sub_off(3000);
    assert_eq!(p.play_count, 0);
    assert_eq!(p.play_duration, 0);
    assert!(!p.is_playing());
}

#[test]
fn play_duration_sums_completed_intervals() {
    let mut p = player();
    p.sub_on(1000);
    p.sub_off(3000); // +2000
    p.sub_on(10_000);
    p.sub_off(10_500); // +500
    assert_eq!(p.play_duration, 2500);
    assert_eq!(p.play_count, 2);
}

#[test]
fn play_duration_never_decreases() {
    let mut p = player();
    let mut last = 0u64;
    let calls: [(bool, u64); 6] = [
        (true, 100),
        (false, 50), // clock going backwards still cannot shrink the total
        (true, 200),
        (true, 300),
        (false, 900),
        (false, 1000),
    ];
    for (on, t) in calls {
        if on {
            p.sub_on(t);
        } else {
            p.sub_off(t);
        }
        assert!(p.play_duration >= last);
        last = p.play_duration;
    }
}

#[test]
fn add_stats_accumulates_totals() {
    let mut p = player();
    p.add_stats(3, 4000);
    p.add_stats(2, 500);
    assert_eq!(p.play_count, 5);
    assert_eq!(p.play_duration, 4500);
}

#[test]
fn reset_stats_keeps_identity_and_zeroes_accounting() {
    let mut p = player();
    p.sub_on(1000);
    p.sub_off(2000);
    p.add_stats(4, 100);
    let r = p.reset_stats();
    assert_eq!(r.id, p.id);
    assert_eq!(r.name, p.name);
    assert_eq!(r.number, p.number);
    assert_eq!(r.play_count, 0);
    assert_eq!(r.play_duration, 0);
    assert!(r.play_start_time.is_none());
}
