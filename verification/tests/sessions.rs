use arena_game::client::{Client, DynClient, WithHero};
use arena_game::direction::Direction;
use arena_game::game::{Game, GameState};
use arena_game::grid::Grid;
use arena_game::player::{Action, Player};
use arena_game::pos::Pos;
use arena_game::scheduler::{
    get_action_from_client, verdict, Farewell, Notice, Scheduler, SchedulerConfig, Session, Step,
};

fn config(match_size: usize, time_limit: u16) -> SchedulerConfig {
    SchedulerConfig { map_size: 5, time_limit, actions_count: 2, match_size, tick_interval: 2000 }
}

fn collect(scheduler: &mut Scheduler, now: u64) -> Session {
    match scheduler.games_update(now) {
        Step::Collect { session } => session,
        _ => panic!("a session should be due"),
    }
}

fn fire(direction: Direction) -> Action {
    Action::Attack { direction }
}

#[test]
fn standard_setup_matches_two_on_a_field_of_five() {
    let config = SchedulerConfig::standard();
    assert_eq!(
        config,
        SchedulerConfig { map_size: 5, time_limit: 1000, actions_count: 2, match_size: 2, tick_interval: 2000 }
    );
    let scheduler = Scheduler::new(config).unwrap();
    assert_eq!(scheduler.config(), config);
    assert_eq!(scheduler.waiting_count(), 0);
    assert_eq!(scheduler.sessions_count(), 0);
}

#[test]
fn setup_with_too_many_participants_is_refused() {
    assert!(Scheduler::new(config(256, 10)).is_none());
    assert!(Scheduler::new(config(usize::MAX, 10)).is_none());
    assert!(Scheduler::new(config(255, 10)).is_some());
    assert!(Scheduler::new(config(0, 10)).is_some());
}

#[test]
fn no_game_starts_before_enough_wait() {
    let mut scheduler = Scheduler::new(config(3, 10)).unwrap();
    assert!(!scheduler.game_selection(0));
    scheduler.new_connections_handler(10);
    scheduler.new_connections_handler(11);
    assert!(!scheduler.game_selection(5));
    assert_eq!(scheduler.waiting_count(), 2);
    assert_eq!(scheduler.sessions_count(), 0);
    assert!(matches!(scheduler.games_update(100_000), Step::Idle));
}

#[test]
fn those_who_wait_longest_are_matched_first() {
    let mut scheduler = Scheduler::new(config(2, 10)).unwrap();
    for connection in [40u64, 30, 20, 10, 50] {
        scheduler.new_connections_handler(connection);
    }
    assert!(scheduler.game_selection(100));
    assert_eq!(scheduler.waiting_count(), 3);
    assert_eq!(scheduler.sessions_count(), 1);
    assert!(scheduler.game_selection(200));
    assert_eq!(scheduler.waiting_count(), 1);
    assert_eq!(scheduler.sessions_count(), 2);
    assert!(!scheduler.game_selection(300));

    let first = collect(&mut scheduler, 5000);
    assert_eq!(
        first.participants(),
        &vec![
            Client { connection: 40, hero_id: Some(0) },
            Client { connection: 30, hero_id: Some(1) }
        ]
    );
    assert_eq!(first.deadline(), 2100);
    let second = collect(&mut scheduler, 5000);
    assert_eq!(
        second.participants(),
        &vec![
            Client { connection: 20, hero_id: Some(0) },
            Client { connection: 10, hero_id: Some(1) }
        ]
    );
    assert_eq!(second.deadline(), 2200);
    assert!(matches!(scheduler.games_update(5000), Step::Idle));
}

#[test]
fn new_session_starts_with_the_standard_line_up() {
    let mut scheduler = Scheduler::new(config(3, 10)).unwrap();
    for connection in 0..3u64 {
        scheduler.new_connections_handler(connection);
    }
    assert!(scheduler.game_selection(0));
    let session = collect(&mut scheduler, 2001);
    let game = session.game();
    assert_eq!(game.get_actions_count(), 2);
    match game.state() {
        GameState::NotStarted { info } => {
            assert_eq!(info.map().get_size(), 5);
            assert_eq!(info.players().len(), 3);
            for i in 0..3u8 {
                let report = info.players()[i as usize].character;
                assert_eq!(report.pos, Some(Pos::new(i + 1, 0)));
                assert_eq!(report.health, 100);
                assert_eq!(report.bullet_damage, 20);
                assert_eq!(report.bullet_range, 5);
                assert_eq!(report.gun_reloading_await, 0);
            }
        }
        _ => panic!("the game should not have started"),
    }
    assert_eq!(game.get_player_by_id(0), Some(0));
    assert_eq!(game.get_player_by_id(2), Some(2));
    assert_eq!(game.get_player_by_id(3), None);
}

#[test]
fn session_is_due_only_after_its_deadline() {
    let mut scheduler = Scheduler::new(config(1, 10)).unwrap();
    scheduler.new_connections_handler(1);
    assert!(scheduler.game_selection(1000));
    assert!(matches!(scheduler.games_update(1000), Step::Waiting));
    assert!(matches!(scheduler.games_update(2999), Step::Waiting));
    assert!(matches!(scheduler.games_update(3000), Step::Waiting));
    assert_eq!(scheduler.sessions_count(), 1);
    let session = collect(&mut scheduler, 3001);
    assert_eq!(session.deadline(), 3000);
    assert_eq!(scheduler.sessions_count(), 0);
}

#[test]
fn session_that_is_not_due_goes_to_the_back() {
    let mut scheduler = Scheduler::new(config(1, 10)).unwrap();
    scheduler.new_connections_handler(1);
    scheduler.new_connections_handler(2);
    scheduler.new_connections_handler(3);
    assert!(scheduler.game_selection(1000));
    assert!(scheduler.game_selection(0));
    assert!(scheduler.game_selection(500));
    assert!(matches!(scheduler.games_update(2400), Step::Waiting));
    let second = collect(&mut scheduler, 2400);
    assert_eq!(second.participants()[0].connection(), 2);
    assert!(matches!(scheduler.games_update(2400), Step::Waiting));
    assert!(matches!(scheduler.games_update(2400), Step::Waiting));
    assert!(matches!(scheduler.games_update(2400), Step::Waiting));
    assert_eq!(scheduler.sessions_count(), 2);
    let first = collect(&mut scheduler, 3001);
    assert_eq!(first.participants()[0].connection(), 1);
    let third = collect(&mut scheduler, 3001);
    assert_eq!(third.participants()[0].connection(), 3);
}

#[test]
fn advanced_session_plays_a_turn_and_is_due_an_interval_later() {
    let mut scheduler = Scheduler::new(config(2, 10)).unwrap();
    scheduler.new_connections_handler(7);
    scheduler.new_connections_handler(8);
    assert!(scheduler.game_selection(0));
    let session = collect(&mut scheduler, 2500);
    scheduler.advance(
        session,
        vec![Some(vec![fire(Direction::Right)]), Some(vec![Action::Move { direction: Direction::Top, range: 1 }])],
        2600,
    );
    assert_eq!(scheduler.sessions_count(), 1);
    assert!(matches!(scheduler.games_update(4600), Step::Waiting));
    let session = collect(&mut scheduler, 4601);
    assert_eq!(session.deadline(), 4600);
    let game = session.game();
    assert!(matches!(game.state(), GameState::Continue { .. }));
    assert_eq!(game.player_state(1).character.health, 100);
    assert_eq!(game.player_state(1).character.pos, Some(Pos::new(2, 1)));
    assert_eq!(game.player_state(0).character.gun_reloading_await, 2);
}

#[test]
fn unreadable_and_missing_answers_count_as_nothing() {
    let mut scheduler = Scheduler::new(config(3, 10)).unwrap();
    for connection in 0..3u64 {
        scheduler.new_connections_handler(connection);
    }
    assert!(scheduler.game_selection(0));
    let session = collect(&mut scheduler, 2500);
    scheduler.advance(
        session,
        vec![None, Some(vec![Action::Move { direction: Direction::Top, range: 1 }; 7])],
        2600,
    );
    let session = collect(&mut scheduler, 9000);
    let game = session.game();
    assert_eq!(game.player_state(0).character.pos, Some(Pos::new(1, 0)));
    assert_eq!(game.player_state(1).character.pos, Some(Pos::new(2, 2)));
    assert_eq!(game.player_state(2).character.pos, Some(Pos::new(3, 0)));
}

#[test]
fn session_out_of_time_says_so_to_all_and_is_gone() {
    let mut scheduler = Scheduler::new(config(2, 1)).unwrap();
    scheduler.new_connections_handler(7);
    scheduler.new_connections_handler(8);
    assert!(scheduler.game_selection(0));
    let session = collect(&mut scheduler, 2500);
    scheduler.advance(session, vec![], 2500);
    match scheduler.games_update(4501) {
        Step::Finished { notices } => assert_eq!(
            notices,
            vec![
                Farewell { to: Client { connection: 7, hero_id: Some(0) }, notice: Notice::Timeout },
                Farewell { to: Client { connection: 8, hero_id: Some(1) }, notice: Notice::Timeout },
            ]
        ),
        _ => panic!("the session should be finished"),
    }
    assert_eq!(scheduler.sessions_count(), 0);
    assert!(matches!(scheduler.games_update(9000), Step::Idle));
}

#[test]
fn finished_session_waits_for_its_deadline_too() {
    let mut scheduler = Scheduler::new(config(2, 1)).unwrap();
    scheduler.new_connections_handler(7);
    scheduler.new_connections_handler(8);
    assert!(scheduler.game_selection(0));
    let session = collect(&mut scheduler, 2500);
    scheduler.advance(session, vec![], 2500);
    assert!(matches!(scheduler.games_update(4500), Step::Waiting));
    assert_eq!(scheduler.sessions_count(), 1);
}

#[test]
fn won_session_tells_winner_and_loser() {
    let mut scheduler = Scheduler::new(config(2, 1000)).unwrap();
    scheduler.new_connections_handler(7);
    scheduler.new_connections_handler(8);
    assert!(scheduler.game_selection(0));
    let mut now = 0u64;
    for turn in 0..9 {
        now += 2001;
        let session = collect(&mut scheduler, now);
        let batch = if turn % 2 == 0 {
            vec![fire(Direction::Right), Action::Reload]
        } else {
            vec![Action::Reload, Action::Nothing]
        };
        scheduler.advance(session, vec![Some(batch), None], now);
    }
    now += 2001;
    match scheduler.games_update(now) {
        Step::Finished { notices } => assert_eq!(
            notices,
            vec![
                Farewell { to: Client { connection: 7, hero_id: Some(0) }, notice: Notice::Win },
                Farewell { to: Client { connection: 8, hero_id: Some(1) }, notice: Notice::Lose },
            ]
        ),
        _ => panic!("the session should be finished"),
    }
    assert_eq!(scheduler.sessions_count(), 0);
}

#[test]
fn session_of_one_is_won_at_once() {
    let mut scheduler = Scheduler::new(config(1, 1000)).unwrap();
    scheduler.new_connections_handler(3);
    assert!(scheduler.game_selection(0));
    let session = collect(&mut scheduler, 2001);
    scheduler.advance(session, vec![None], 2001);
    match scheduler.games_update(4002) {
        Step::Finished { notices } => assert_eq!(
            notices,
            vec![Farewell { to: Client { connection: 3, hero_id: Some(0) }, notice: Notice::Win }]
        ),
        _ => panic!("the session should be finished"),
    }
}

#[test]
fn session_of_none_is_a_draw_for_nobody() {
    let mut scheduler = Scheduler::new(config(0, 1000)).unwrap();
    assert!(scheduler.game_selection(0));
    let session = collect(&mut scheduler, 2001);
    assert!(session.participants().is_empty());
    scheduler.advance(session, vec![], 2001);
    match scheduler.games_update(4002) {
        Step::Finished { notices } => assert!(notices.is_empty()),
        _ => panic!("the session should be finished"),
    }
}

#[test]
fn verdict_depends_on_state_and_hero() {
    assert_eq!(verdict(&GameState::End { winners: vec![] }, 0), Some(Notice::Draw));
    assert_eq!(verdict(&GameState::End { winners: vec![3] }, 3), Some(Notice::Win));
    assert_eq!(verdict(&GameState::End { winners: vec![3] }, 0), Some(Notice::Lose));
    assert_eq!(verdict(&GameState::TimeIsOver { winners: vec![1, 2] }, 1), Some(Notice::Timeout));
    assert_eq!(verdict(&GameState::TimeIsOver { winners: vec![1, 2] }, 0), Some(Notice::Timeout));
    assert_eq!(verdict(&GameState::Empty, 0), None);
    let game = Game::new(Grid::new_empty(2), vec![Player::new_default_player(0, Pos::new(0, 0))], 5, 1);
    assert_eq!(verdict(game.state(), 0), None);
}

#[test]
fn received_batch_is_made_to_fit_the_game() {
    let game = Game::new(Grid::new_empty(2), vec![Player::new_default_player(0, Pos::new(0, 0))], 5, 3);
    assert_eq!(
        get_action_from_client(&game, None),
        vec![Action::Nothing, Action::Nothing, Action::Nothing]
    );
    assert_eq!(
        get_action_from_client(&game, Some(vec![Action::Reload])),
        vec![Action::Reload, Action::Nothing, Action::Nothing]
    );
    assert_eq!(
        get_action_from_client(&game, Some(vec![Action::Reload; 5])),
        vec![Action::Reload, Action::Reload, Action::Reload]
    );
    assert_eq!(
        get_action_from_client(&game, Some(vec![fire(Direction::Top), Action::Reload, Action::Nothing])),
        vec![fire(Direction::Top), Action::Reload, Action::Nothing]
    );
}

#[test]
fn client_gets_its_hero() {
    let mut client = Client::new(12);
    assert_eq!(client.connection(), 12);
    assert_eq!(client.get_hero_id(), None);
    client.add_hero(4);
    assert_eq!(client.get_hero_id(), Some(4));
    client.add_hero_id(9);
    assert_eq!(client, Client { connection: 12, hero_id: Some(9) });
}
