//! The read-only projections and their display helpers.

use subbers::{into_game_views, into_player_views, Event, Game, GameState, GameView, Player, PlayerView};

fn finished_game() -> Game {
    Game::new(3, vec![Player::new(1, 10, String::from("A"))])
        .on_event(Event::StartGame, 49_530_000) // 13:45:30 UTC
        .unwrap()
        .on_event(Event::EndGame, 49_550_000)
        .unwrap()
}

#[test]
fn game_view_resolves_phase_times() {
    let view = GameView::of_game(&finished_game());
    assert_eq!(view.id, 3);
    assert_eq!(view.start_time, Some(49_530_000));
    assert_eq!(view.end_time, Some(49_550_000));
    assert!(matches!(view.state, GameState::Finished));
    assert_eq!(view.periods.len(), 1);
    assert_eq!(view.mvp, None);
    assert_eq!(view.players.len(), 1);
    assert_eq!(view.players[0].name, "A");
}

#[test]
fn game_view_of_unstarted_game_has_no_times() {
    let view = GameView::of_game(&Game::new(1, vec![]));
    assert_eq!(view.start_time, None);
    assert_eq!(view.end_time, None);
    assert_eq!(view.start_time_as_digital(), "-");
    assert_eq!(view.end_time_as_digital(), "-");
    assert_eq!(view.total_duration(99_999), "-");
    assert_eq!(view.current_period_duration(99_999), "-");
}

#[test]
fn digital_times_format_as_clock() {
    let view = GameView::of_game(&finished_game());
    assert_eq!(view.start_time_as_digital(), "13:45:30");
    assert_eq!(view.end_time_as_digital(), "13:45:50");
}

#[test]
fn total_duration_formats_minutes_and_seconds() {
    let view = GameView::of_game(&finished_game());
    // 20 seconds between start and end
    assert_eq!(view.total_duration(0), "0m 20s");

    let running = Game::new(1, vec![]).on_event(Event::StartGame, 0).unwrap();
    let view = GameView::of_game(&running);
    // 2 minutes 5 seconds since the start
    assert_eq!(view.total_duration(125_000), "2m 5s");
}

#[test]
fn current_period_duration_runs_while_open() {
    let running = Game::new(1, vec![]).on_event(Event::StartGame, 60_000).unwrap();
    let view = GameView::of_game(&running);
    assert_eq!(view.current_period_duration(185_000), "2m 5s");

    let view = GameView::of_game(&finished_game());
    assert_eq!(view.current_period_duration(99_999_999), "-");
}

#[test]
fn player_view_projects_fields_and_durations() {
    let mut p = Player::new(1, 10, String::from("A"));
    p.sub_on(1000);
    let view = PlayerView::of_player(&p);
    assert_eq!(view.id, 1);
    assert_eq!(view.number, 10);
    assert_eq!(view.name, "A");
    assert!(view.playing);
    assert_eq!(view.play_count, 1);
    assert_eq!(view.total_duration(), "0m 0s");
    assert_eq!(view.current_period_duration(126_000), "2m 5s");

    let mut p = p;
    p.sub_off(126_000);
    let view = PlayerView::of_player(&p);
    assert!(!view.playing);
    assert_eq!(view.total_duration(), "2m 5s");
    assert_eq!(view.current_period_duration(200_000), "-");
}

#[test]
fn into_views_convert_every_element() {
    let games = vec![Game::new(1, vec![]), Game::new(2, vec![])];
    let views = into_game_views(games);
    assert_eq!(views.len(), 2);
    assert_eq!(views[0].id, 1);
    assert_eq!(views[1].id, 2);

    let players = vec![Player::new(1, 10, String::from("A")), Player::new(2, 20, String::from("B"))];
    let views = into_player_views(players);
    assert_eq!(views.len(), 2);
    assert_eq!(views[0].name, "A");
    assert_eq!(views[1].name, "B");
}

#[test]
fn player_view_from_reference_matches_of_player() {
    let p = Player::new(5, 50, String::from("N"));
    let a = PlayerView::from(&p);
    let b = PlayerView::of_player(&p);
    assert_eq!(a.id, b.id);
    assert_eq!(a.name, b.name);
    assert_eq!(a.playing, b.playing);
}
