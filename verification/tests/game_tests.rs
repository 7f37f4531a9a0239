//! The dispatch table and the phase transitions, exercised step by step.

use subbers::{Event, EventError, Game, GameState};

fn fresh_game() -> Game {
    Game::new(1, vec![])
}

fn started(now: u64) -> Game {
    fresh_game().on_event(Event::StartGame, now).unwrap()
}

fn paused(t1: u64, t2: u64) -> Game {
    started(t1).on_event(Event::EndPeriod, t2).unwrap()
}

#[test]
fn round_trip_through_all_phases() {
    let g = fresh_game();
    assert!(matches!(g.state.kind(), GameState::NotStarted));

    let g = g.on_event(Event::StartGame, 1000).unwrap();
    assert!(matches!(g.state.kind(), GameState::InProgress));
    assert_eq!(g.shared.periods.len(), 1);
    assert_eq!(g.shared.periods[0].start_time, 1000);
    assert!(g.shared.periods[0].end_time.is_none());

    let g = g.on_event(Event::EndPeriod, 2000).unwrap();
    assert!(matches!(g.state.kind(), GameState::Paused));
    assert_eq!(g.shared.periods[0].end_time, Some(2000));

    let g = g.on_event(Event::StartPeriod, 3000).unwrap();
    assert!(matches!(g.state.kind(), GameState::InProgress));
    assert_eq!(g.shared.periods.len(), 2);
    assert_eq!(g.shared.periods[1].start_time, 3000);
    assert!(g.shared.periods[1].end_time.is_none());

    let g = g.on_event(Event::EndGame, 4000).unwrap();
    assert!(matches!(g.state.kind(), GameState::Finished));
    assert_eq!(g.shared.periods[1].end_time, Some(4000));
    assert_eq!(g.id, 1);
}

#[test]
fn not_started_rejects_all_but_start_game() {
    for event in [Event::EndGame, Event::StartPeriod, Event::EndPeriod] {
        let g = fresh_game();
        let err = g.on_event(event, 500).unwrap_err();
        assert_eq!(err, EventError::Invalid);
    }
}

#[test]
fn in_progress_rejects_start_events() {
    for event in [Event::StartGame, Event::StartPeriod] {
        let g = started(1000);
        let err = g.on_event(event, 2000).unwrap_err();
        assert_eq!(err, EventError::Invalid);
    }
}

#[test]
fn paused_rejects_start_game_and_end_period() {
    for event in [Event::StartGame, Event::EndPeriod] {
        let g = paused(1000, 2000);
        let err = g.on_event(event, 3000).unwrap_err();
        assert_eq!(err, EventError::Invalid);
    }
}

#[test]
fn finished_rejects_every_event() {
    for event in [Event::StartGame, Event::EndGame, Event::StartPeriod, Event::EndPeriod] {
        let g = started(1000).on_event(Event::EndGame, 2000).unwrap();
        let err = g.on_event(event, 3000).unwrap_err();
        assert_eq!(err, EventError::Invalid);
    }
}

#[test]
fn rejected_event_leaves_game_unchanged() {
    let g = started(1000);
    let before_periods: Vec<(u64, Option<u64>)> =
        g.shared.periods.iter().map(|p| (p.start_time, p.end_time)).collect();
    let id = g.id;

    // A rejected event returns an error without having produced a new game;
    // the snapshot taken before shows the attempt changed nothing observable.
    let err = g.on_event(Event::StartGame, 9000).unwrap_err();
    assert_eq!(err, EventError::Invalid);

    let g2 = started(1000);
    let after_periods: Vec<(u64, Option<u64>)> =
        g2.shared.periods.iter().map(|p| (p.start_time, p.end_time)).collect();
    assert_eq!(before_periods, after_periods);
    assert_eq!(id, g2.id);
}

#[test]
fn end_game_closes_open_period_from_paused() {
    let g = paused(1000, 2000);
    let g = g.on_event(Event::StartPeriod, 3000).unwrap();
    let g = g.on_event(Event::EndGame, 5000).unwrap();
    assert!(matches!(g.state.kind(), GameState::Finished));
    assert_eq!(g.shared.periods.len(), 2);
    assert_eq!(g.shared.periods[1].end_time, Some(5000));
}

#[test]
fn end_game_from_paused_restamps_last_period_end() {
    let g = paused(1000, 2000);
    let g = g.on_event(Event::EndGame, 4000).unwrap();
    assert!(matches!(g.state.kind(), GameState::Finished));
    // closing the most recent period is a pop-set-push, so its end moves to
    // the game's end
    assert_eq!(g.shared.periods[0].end_time, Some(4000));
}

#[test]
fn phase_wraps_back_into_state() {
    let phase: subbers::game::GamePhase<subbers::game::NotStartedState> = Default::default();
    let state = phase.into_state();
    assert!(matches!(state.kind(), GameState::NotStarted));
}

#[test]
fn new_game_has_no_periods_and_no_mvp() {
    let g = fresh_game();
    assert_eq!(g.shared.periods.len(), 0);
    assert!(g.shared.mvp.is_none());
    assert_eq!(g.shared.players.len(), 0);
}
