//! The orchestration service over the in-memory repository.

use subbers::{Error, Game, GameState, InMemoryRepo, Repo, Service};

fn service() -> Service<InMemoryRepo> {
    Service::new(InMemoryRepo::new())
}

#[test]
fn create_game_snapshots_roster_with_zeroed_stats() {
    let mut svc = service();
    let mut p = svc.create_player(10, String::from("A")).unwrap();
    p.play_count = 7;
    p.play_duration = 1234;
    svc.update_player(p).unwrap();

    let game = svc.create_game().unwrap();
    assert_eq!(game.id, 1);
    assert!(matches!(game.state.kind(), GameState::NotStarted));
    assert_eq!(game.shared.players.len(), 1);
    assert_eq!(game.shared.players[0].id, 0);
    assert_eq!(game.shared.players[0].play_count, 0);
    assert_eq!(game.shared.players[0].play_duration, 0);
    assert!(game.shared.players[0].play_start_time.is_none());
}

#[test]
fn game_lifecycle_with_substitutions() {
    let mut svc = service();
    svc.create_player(10, String::from("A")).unwrap();
    let game = svc.create_game().unwrap();
    let gid = game.id;
    let pid = 0u32;

    let game = svc.start_game_at(&gid, 1000).unwrap();
    assert!(matches!(game.state.kind(), GameState::InProgress));
    assert_eq!(game.shared.periods.len(), 1);
    assert_eq!(game.shared.periods[0].start_time, 1000);
    assert!(game.shared.periods[0].end_time.is_none());

    let game = svc.sub_player_on_at(&gid, &pid, 2000).unwrap();
    assert_eq!(game.shared.players[0].play_count, 1);
    assert!(game.shared.players[0].is_playing());

    let game = svc.end_game_at(&gid, 5000).unwrap();
    assert!(matches!(game.state.kind(), GameState::Finished));
    assert_eq!(game.shared.periods[0].end_time, Some(5000));
    // everyone is subbed off when the game ends
    assert!(!game.shared.players[0].is_playing());
    assert_eq!(game.shared.players[0].play_duration, 3000);

    // and the per-game stats were folded into the persistent record
    let persistent = svc.get_player(&pid).unwrap();
    assert_eq!(persistent.play_count, 1);
    assert_eq!(persistent.play_duration, 3000);
}

#[test]
fn end_game_period_subs_everyone_off() {
    let mut svc = service();
    svc.create_player(10, String::from("A")).unwrap();
    let game = svc.create_game().unwrap();
    let gid = game.id;

    svc.start_game_at(&gid, 1000).unwrap();
    svc.sub_player_on_at(&gid, &0, 1500).unwrap();
    let game = svc.end_game_period_at(&gid, 4000).unwrap();

    assert!(matches!(game.state.kind(), GameState::Paused));
    assert_eq!(game.shared.periods[0].end_time, Some(4000));
    assert!(!game.shared.players[0].is_playing());
    assert_eq!(game.shared.players[0].play_duration, 2500);

    // pausing a period does not touch the persistent record
    let persistent = svc.get_player(&0).unwrap();
    assert_eq!(persistent.play_count, 0);
    assert_eq!(persistent.play_duration, 0);
}

#[test]
fn start_game_period_resumes_play() {
    let mut svc = service();
    let game = svc.create_game().unwrap();
    let gid = game.id;
    svc.start_game_at(&gid, 1000).unwrap();
    svc.end_game_period_at(&gid, 2000).unwrap();
    let game = svc.start_game_period_at(&gid, 3000).unwrap();
    assert!(matches!(game.state.kind(), GameState::InProgress));
    assert_eq!(game.shared.periods.len(), 2);
    assert_eq!(game.shared.periods[1].start_time, 3000);
}

#[test]
fn sub_player_off_stops_the_clock() {
    let mut svc = service();
    svc.create_player(10, String::from("A")).unwrap();
    let game = svc.create_game().unwrap();
    let gid = game.id;
    svc.start_game_at(&gid, 1000).unwrap();
    svc.sub_player_on_at(&gid, &0, 2000).unwrap();
    let game = svc.sub_player_off_at(&gid, &0, 2600).unwrap();
    assert!(!game.shared.players[0].is_playing());
    assert_eq!(game.shared.players[0].play_duration, 600);
}

#[test]
fn wrong_event_surfaces_invalid_input() {
    let mut svc = service();
    let game = svc.create_game().unwrap();
    let gid = game.id;
    svc.start_game_at(&gid, 1000).unwrap();
    let err = svc.start_game_at(&gid, 2000).unwrap_err();
    assert!(matches!(err, Error::InvalidInput(_)));
}

#[test]
fn missing_game_surfaces_not_found() {
    let mut svc = service();
    assert!(matches!(svc.get_game(&9), Err(Error::NotFound)));
    assert!(matches!(svc.start_game_at(&9, 1000), Err(Error::NotFound)));
    assert!(matches!(svc.upsert_mvp(&9, &0), Err(Error::NotFound)));
}

#[test]
fn sub_player_on_unknown_player_is_not_found() {
    let mut svc = service();
    let game = svc.create_game().unwrap();
    let gid = game.id;
    svc.start_game_at(&gid, 1000).unwrap();
    let err = svc.sub_player_on_at(&gid, &42, 2000).unwrap_err();
    assert!(matches!(err, Error::NotFound));
}

#[test]
fn upsert_mvp_sets_the_selection() {
    let mut svc = service();
    svc.create_player(10, String::from("A")).unwrap();
    let game = svc.create_game().unwrap();
    let gid = game.id;
    let game = svc.upsert_mvp(&gid, &0).unwrap();
    assert_eq!(game.shared.mvp, Some(0));
    let stored = svc.get_game(&gid).unwrap();
    assert_eq!(stored.shared.mvp, Some(0));
}

#[test]
fn upsert_mvp_unknown_player_leaves_mvp_unchanged() {
    let mut svc = service();
    svc.create_player(10, String::from("A")).unwrap();
    let game = svc.create_game().unwrap();
    let gid = game.id;
    svc.upsert_mvp(&gid, &0).unwrap();

    let err = svc.upsert_mvp(&gid, &42).unwrap_err();
    assert!(matches!(err, Error::NotFound));
    let stored = svc.get_game(&gid).unwrap();
    assert_eq!(stored.shared.mvp, Some(0));
}

#[test]
fn wall_clock_entry_points_drive_phases() {
    let mut svc = subbers::svc::new(InMemoryRepo::new());
    svc.create_player(10, String::from("A")).unwrap();
    let game = svc.create_game().unwrap();
    let gid = game.id;

    let game = svc.start_game(&gid).unwrap();
    assert!(matches!(game.state.kind(), GameState::InProgress));
    svc.sub_player_on(&gid, &0).unwrap();
    let game = svc.end_game_period(&gid).unwrap();
    assert!(matches!(game.state.kind(), GameState::Paused));
    assert!(game.shared.periods[0].end_time.is_some());
    svc.start_game_period(&gid).unwrap();
    svc.sub_player_off(&gid, &0).unwrap();
    let game = svc.end_game(&gid).unwrap();
    assert!(matches!(game.state.kind(), GameState::Finished));
    assert_eq!(svc.get_player(&0).unwrap().play_count, 1);
}

#[test]
fn create_game_conflict_persists_nothing() {
    let mut repo = InMemoryRepo::new();
    // occupy the id the service will compute next: stored count 1, so 2
    repo.create_game(Game::new(2, vec![])).unwrap();
    let mut svc = Service::new(repo);

    let err = svc.create_game().unwrap_err();
    assert!(matches!(err, Error::Conflict));

    let games = svc.list_games().unwrap();
    assert_eq!(games.len(), 1);
    assert_eq!(games[0].id, 2);
    assert!(games[0].shared.mvp.is_none());
}

#[test]
fn list_games_is_newest_first() {
    let mut svc = service();
    svc.create_game().unwrap();
    svc.create_game().unwrap();
    svc.create_game().unwrap();
    let games = svc.list_games().unwrap();
    let ids: Vec<u32> = games.iter().map(|g| g.id).collect();
    assert_eq!(ids, vec![3, 2, 1]);
}

#[test]
fn list_players_orders_by_case_insensitive_name() {
    let mut svc = service();
    svc.create_player(1, String::from("B")).unwrap(); // id 0
    svc.create_player(2, String::from("a")).unwrap(); // id 1
    let players = svc.list_players().unwrap();
    let names: Vec<String> = players.iter().map(|p| p.name.clone()).collect();
    // byte order would put "B" (0x42) before "a" (0x61); folding the case
    // puts "a" first
    assert_eq!(names, vec![String::from("a"), String::from("B")]);
}

#[test]
fn repo_counts_and_deletes_directly() {
    let mut repo = InMemoryRepo::new();
    assert_eq!(repo.count_players().unwrap(), 0);
    assert_eq!(repo.count_games().unwrap(), 0);
    repo.create_player(10, String::from("A")).unwrap();
    repo.create_game(Game::new(1, vec![])).unwrap();
    repo.create_game(Game::new(7, vec![])).unwrap();
    assert_eq!(repo.count_players().unwrap(), 1);
    assert_eq!(repo.count_games().unwrap(), 2);
    repo.delete_game(&1).unwrap();
    assert_eq!(repo.count_games().unwrap(), 1);
    assert!(matches!(repo.delete_game(&1), Err(Error::NotFound)));
    assert!(matches!(repo.get_game(&1), Err(Error::NotFound)));
    assert_eq!(repo.get_game(&7).unwrap().id, 7);
}

#[test]
fn repo_create_game_rejects_duplicate_id() {
    let mut repo = InMemoryRepo::new();
    repo.create_game(Game::new(5, vec![])).unwrap();
    assert!(matches!(repo.create_game(Game::new(5, vec![])), Err(Error::Conflict)));
}

#[test]
fn update_player_replaces_by_id() {
    let mut svc = service();
    svc.create_player(10, String::from("A")).unwrap();
    let mut p = svc.get_player(&0).unwrap();
    p.number = 99;
    svc.update_player(p).unwrap();
    assert_eq!(svc.get_player(&0).unwrap().number, 99);
}

#[test]
fn delete_player_removes_the_record() {
    let mut svc = service();
    svc.create_player(10, String::from("A")).unwrap();
    svc.delete_player(&0).unwrap();
    assert!(matches!(svc.get_player(&0), Err(Error::NotFound)));
    assert!(matches!(svc.delete_player(&0), Err(Error::NotFound)));
}

#[test]
fn ending_a_game_folds_stats_for_every_roster_player() {
    let mut svc = service();
    svc.create_player(1, String::from("A")).unwrap(); // id 0
    svc.create_player(2, String::from("B")).unwrap(); // id 1
    let game = svc.create_game().unwrap();
    let gid = game.id;
    svc.start_game_at(&gid, 0).unwrap();
    svc.sub_player_on_at(&gid, &0, 1000).unwrap();
    svc.sub_player_on_at(&gid, &1, 2000).unwrap();
    svc.end_game_at(&gid, 5000).unwrap();

    assert_eq!(svc.get_player(&0).unwrap().play_duration, 4000);
    assert_eq!(svc.get_player(&1).unwrap().play_duration, 3000);
    assert_eq!(svc.get_player(&0).unwrap().play_count, 1);
    assert_eq!(svc.get_player(&1).unwrap().play_count, 1);
}
