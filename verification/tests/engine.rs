use arena_game::character::{Bullet, Character, Gun, Health};
use arena_game::direction::Direction;
use arena_game::game::{Game, GameBuilder, GameState, LikeGame};
use arena_game::grid::{Cell, Grid};
use arena_game::player::{Action, Player};
use arena_game::pos::Pos;

fn fighter(id: u8, x: u8, y: u8) -> Player {
    Player::new_player(
        id,
        Character::new(1, Pos::new(x, y), Health::new(100), Gun::new(2, Bullet::new(5, 20))),
    )
}

fn custom(id: u8, x: u8, y: u8, speed: u8, health: u8, reload: u8, range: u8, damage: u8) -> Player {
    Player::new_player(
        id,
        Character::new(
            speed,
            Pos::new(x, y),
            Health::new(health),
            Gun::new(reload, Bullet::new(range, damage)),
        ),
    )
}

fn field_with(size: u8, cells: &[(u8, u8, Cell)]) -> Grid {
    let mut field = Grid::new_empty(size).clone_mut_map();
    for (x, y, cell) in cells {
        field.set_cell(Pos::new(*x, *y), *cell);
    }
    field.immut_map()
}

fn step(direction: Direction, range: u8) -> Action {
    Action::Move { direction, range }
}

fn fire(direction: Direction) -> Action {
    Action::Attack { direction }
}

fn place(game: &Game, id: u8) -> Pos {
    game.player_state(id).character.pos.unwrap()
}

fn health(game: &Game, id: u8) -> u8 {
    game.player_state(id).character.health
}

fn wait(game: &Game, id: u8) -> u8 {
    game.player_state(id).character.gun_reloading_await
}

#[test]
fn shot_at_the_neighbour_takes_twenty_points() {
    let mut game = Game::new(Grid::new_empty(2), vec![fighter(0, 0, 0), fighter(1, 1, 0)], 1000, 2);
    game.update(vec![
        vec![step(Direction::Right, 1), fire(Direction::Right)],
        vec![Action::Nothing, Action::Nothing],
    ]);
    assert_eq!(health(&game, 1), 80);
    assert_eq!(health(&game, 0), 100);
    assert_eq!(place(&game, 0), Pos::new(0, 0));
    assert_eq!(place(&game, 1), Pos::new(1, 0));
    assert_eq!(wait(&game, 0), 2);
    assert!(matches!(game.state(), GameState::Continue { .. }));
}

#[test]
fn shot_at_the_neighbour_hits_with_any_range_from_one() {
    for range in 1..=5u8 {
        let mut game = Game::new(
            Grid::new_empty(2),
            vec![custom(0, 0, 0, 1, 100, 2, range, 20), custom(1, 1, 0, 1, 100, 2, range, 20)],
            1000,
            2,
        );
        game.update(vec![
            vec![step(Direction::Right, 1), fire(Direction::Right)],
            vec![Action::Nothing, Action::Nothing],
        ]);
        assert_eq!(health(&game, 1), 80);
        assert_eq!(place(&game, 0), Pos::new(0, 0));
    }
}

#[test]
fn last_turn_with_two_alive_ends_in_time_is_over() {
    let mut game = Game::new(Grid::new_empty(4), vec![fighter(0, 0, 0), fighter(1, 3, 3)], 1, 2);
    game.update(vec![vec![Action::Nothing, Action::Nothing], vec![Action::Nothing, Action::Nothing]]);
    match game.state() {
        GameState::TimeIsOver { winners } => assert_eq!(winners, &vec![0u8, 1u8]),
        _ => panic!("the game should be out of time"),
    }
}

#[test]
fn countdown_of_three_allows_two_turns_that_go_on() {
    let mut game = Game::new(Grid::new_empty(4), vec![fighter(0, 0, 0), fighter(1, 3, 3)], 3, 1);
    game.update(vec![]);
    assert!(matches!(game.state(), GameState::Continue { .. }));
    game.update(vec![]);
    assert!(matches!(game.state(), GameState::Continue { .. }));
    game.update(vec![]);
    assert!(matches!(game.state(), GameState::TimeIsOver { .. }));
}

#[test]
fn game_without_time_is_over_after_its_first_turn() {
    let mut game = Game::new(Grid::new_empty(4), vec![fighter(0, 0, 0), fighter(1, 3, 3)], 0, 1);
    assert!(matches!(game.state(), GameState::NotStarted { .. }));
    game.update(vec![]);
    match game.state() {
        GameState::TimeIsOver { winners } => assert_eq!(winners, &vec![0u8, 1u8]),
        _ => panic!("the game should be out of time"),
    }
}

#[test]
fn bushes_hide_the_position_until_the_player_leaves_them() {
    let mut game = Game::new(
        field_with(3, &[(1, 1, Cell::Bushes)]),
        vec![fighter(0, 1, 1), fighter(1, 2, 2)],
        1000,
        1,
    );
    match game.state() {
        GameState::NotStarted { info } => {
            assert_eq!(info.players()[0].character.pos, None);
            assert_eq!(info.players()[1].character.pos, Some(Pos::new(2, 2)));
            assert_eq!(info.map().get_cell(Pos::new(1, 1)), Cell::Bushes);
            assert_eq!(info.map().get_size(), 3);
        }
        _ => panic!("the game should not have started"),
    }
    game.update(vec![vec![Action::Nothing], vec![Action::Nothing]]);
    match game.state() {
        GameState::Continue { info } => {
            assert_eq!(info.players()[0].character.pos, None);
            assert_eq!(info.players()[0].character.health, 100);
            assert_eq!(info.players()[0].character.bullet_range, 5);
            assert_eq!(info.players()[0].character.bullet_damage, 20);
            assert_eq!(info.players()[0].character.gun_reloading_await, 0);
        }
        _ => panic!("the game should go on"),
    }
    assert_eq!(place(&game, 0), Pos::new(1, 1));
    game.update(vec![vec![step(Direction::Left, 1)], vec![Action::Nothing]]);
    match game.state() {
        GameState::Continue { info } => {
            assert_eq!(info.players()[0].character.pos, Some(Pos::new(0, 1)));
            assert_eq!(info.players().len(), 2);
        }
        _ => panic!("the game should go on"),
    }
}

#[test]
fn walking_into_bushes_hides_the_position() {
    let mut game = Game::new(
        field_with(3, &[(1, 0, Cell::Bushes)]),
        vec![fighter(0, 0, 0), fighter(1, 2, 2)],
        1000,
        1,
    );
    game.update(vec![vec![step(Direction::Right, 1)]]);
    match game.state() {
        GameState::Continue { info } => assert_eq!(info.players()[0].character.pos, None),
        _ => panic!("the game should go on"),
    }
    assert_eq!(place(&game, 0), Pos::new(1, 0));
}

#[test]
fn sole_survivor_ends_the_game() {
    let mut game = Game::new(
        Grid::new_empty(3),
        vec![custom(0, 0, 0, 1, 100, 2, 5, 200), fighter(1, 1, 0)],
        1000,
        1,
    );
    game.update(vec![vec![fire(Direction::Right)], vec![Action::Nothing]]);
    match game.state() {
        GameState::End { winners } => assert_eq!(winners, &vec![0u8]),
        _ => panic!("the game should have ended"),
    }
    assert_eq!(health(&game, 1), 0);
}

#[test]
fn mutual_elimination_ends_the_game_without_winners() {
    let mut game = Game::new(
        Grid::new_empty(3),
        vec![custom(0, 0, 0, 1, 10, 2, 5, 10), custom(1, 1, 0, 1, 10, 2, 5, 10)],
        1000,
        1,
    );
    game.update(vec![vec![fire(Direction::Right)], vec![fire(Direction::Left)]]);
    match game.state() {
        GameState::End { winners } => assert!(winners.is_empty()),
        _ => panic!("the game should have ended"),
    }
    assert_eq!(health(&game, 0), 0);
    assert_eq!(health(&game, 1), 0);
}

#[test]
fn end_comes_before_time_is_over() {
    let mut game = Game::new(
        Grid::new_empty(3),
        vec![custom(0, 0, 0, 1, 100, 2, 5, 200), fighter(1, 1, 0)],
        1,
        1,
    );
    game.update(vec![vec![fire(Direction::Right)], vec![Action::Nothing]]);
    match game.state() {
        GameState::End { winners } => assert_eq!(winners, &vec![0u8]),
        _ => panic!("the game should have ended"),
    }
}

#[test]
fn game_of_one_ends_at_its_first_turn() {
    let mut game = Game::new(Grid::new_empty(3), vec![fighter(4, 0, 0)], 1000, 1);
    assert!(matches!(game.state(), GameState::NotStarted { .. }));
    game.update(vec![vec![step(Direction::Right, 1)]]);
    match game.state() {
        GameState::End { winners } => assert_eq!(winners, &vec![4u8]),
        _ => panic!("the game should have ended"),
    }
    assert_eq!(place(&game, 4), Pos::new(1, 0));
}

#[test]
fn game_of_none_ends_at_its_first_turn() {
    let mut game = Game::new(Grid::new_empty(3), vec![], 1000, 1);
    game.update(vec![]);
    match game.state() {
        GameState::End { winners } => assert!(winners.is_empty()),
        _ => panic!("the game should have ended"),
    }
}

#[test]
fn finished_game_stays_as_it_is() {
    let mut game = Game::new(
        Grid::new_empty(3),
        vec![custom(0, 0, 0, 1, 100, 0, 5, 200), fighter(1, 1, 0), fighter(2, 2, 2)],
        1,
        1,
    );
    game.update(vec![vec![Action::Nothing], vec![Action::Nothing], vec![Action::Nothing]]);
    assert!(matches!(game.state(), GameState::TimeIsOver { .. }));
    game.update(vec![vec![fire(Direction::Right)], vec![step(Direction::Top, 1)], vec![]]);
    match game.state() {
        GameState::TimeIsOver { winners } => assert_eq!(winners, &vec![0u8, 1u8, 2u8]),
        _ => panic!("the game should stay out of time"),
    }
    assert_eq!(health(&game, 1), 100);
    assert_eq!(place(&game, 1), Pos::new(1, 0));
    assert_eq!(wait(&game, 0), 0);
}

#[test]
fn ended_game_stays_ended() {
    let mut game = Game::new(
        Grid::new_empty(3),
        vec![custom(0, 0, 0, 1, 100, 0, 5, 200), fighter(1, 1, 0)],
        1000,
        1,
    );
    game.update(vec![vec![fire(Direction::Right)], vec![Action::Nothing]]);
    assert!(matches!(game.state(), GameState::End { .. }));
    game.update(vec![vec![step(Direction::Top, 1)], vec![Action::Nothing]]);
    match game.state() {
        GameState::End { winners } => assert_eq!(winners, &vec![0u8]),
        _ => panic!("the game should stay ended"),
    }
    assert_eq!(place(&game, 0), Pos::new(0, 0));
}

#[test]
fn validate_leaves_a_fitting_batch_alone() {
    let game = Game::new(Grid::new_empty(3), vec![fighter(0, 0, 0)], 1000, 2);
    let mut batch = vec![step(Direction::Top, 3), fire(Direction::Left)];
    game.validate_actions(&mut batch);
    assert_eq!(batch, vec![step(Direction::Top, 3), fire(Direction::Left)]);
}

#[test]
fn validate_fills_a_short_batch_with_nothing() {
    let game = Game::new(Grid::new_empty(3), vec![fighter(0, 0, 0)], 1000, 3);
    let mut batch = vec![Action::Reload];
    game.validate_actions(&mut batch);
    assert_eq!(batch, vec![Action::Reload, Action::Nothing, Action::Nothing]);
    let mut empty = vec![];
    game.validate_actions(&mut empty);
    assert_eq!(empty, vec![Action::Nothing, Action::Nothing, Action::Nothing]);
}

#[test]
fn validate_cuts_a_long_batch() {
    let game = Game::new(Grid::new_empty(3), vec![fighter(0, 0, 0)], 1000, 2);
    let mut batch = vec![Action::Reload, fire(Direction::Top), step(Direction::Top, 1), Action::Nothing];
    game.validate_actions(&mut batch);
    assert_eq!(batch, vec![Action::Reload, fire(Direction::Top)]);
    let none = Game::new(Grid::new_empty(3), vec![fighter(0, 0, 0)], 1000, 0);
    let mut any = vec![Action::Reload];
    none.validate_actions(&mut any);
    assert!(any.is_empty());
}

#[test]
fn bullet_does_not_outlive_its_turn() {
    let mut game = Game::new(
        Grid::new_empty(6),
        vec![custom(0, 0, 0, 1, 100, 9, 1, 20), fighter(1, 3, 0)],
        1000,
        1,
    );
    game.update(vec![vec![fire(Direction::Right)], vec![Action::Nothing]]);
    assert_eq!(health(&game, 1), 100);
    game.update(vec![vec![Action::Nothing], vec![step(Direction::Left, 1)]]);
    assert_eq!(place(&game, 1), Pos::new(2, 0));
    assert_eq!(health(&game, 1), 100);
    game.update(vec![vec![Action::Nothing], vec![step(Direction::Left, 1)]]);
    assert_eq!(place(&game, 1), Pos::new(1, 0));
    assert_eq!(health(&game, 1), 100);
}

#[test]
fn bullet_flies_as_far_as_its_range() {
    let shooter = |range: u8| custom(0, 0, 0, 1, 100, 9, range, 20);
    let mut near = Game::new(Grid::new_empty(8), vec![shooter(3), fighter(1, 3, 0)], 1000, 1);
    near.update(vec![vec![fire(Direction::Right)]]);
    assert_eq!(health(&near, 1), 80);
    let mut short = Game::new(Grid::new_empty(8), vec![shooter(3), fighter(1, 4, 0)], 1000, 1);
    short.update(vec![vec![fire(Direction::Right)]]);
    assert_eq!(health(&short, 1), 100);
    let mut far = Game::new(Grid::new_empty(8), vec![shooter(5), fighter(1, 5, 0)], 1000, 1);
    far.update(vec![vec![fire(Direction::Right)]]);
    assert_eq!(health(&far, 1), 80);
    let mut next = Game::new(Grid::new_empty(8), vec![shooter(1), fighter(1, 1, 0)], 1000, 1);
    next.update(vec![vec![fire(Direction::Right)]]);
    assert_eq!(health(&next, 1), 80);
}

#[test]
fn longest_range_sets_the_rounds_but_lends_no_range() {
    let mut game = Game::new(
        Grid::new_empty(8),
        vec![custom(0, 0, 0, 1, 100, 9, 1, 20), fighter(1, 2, 0), custom(2, 0, 7, 1, 100, 9, 7, 20)],
        1000,
        1,
    );
    game.update(vec![vec![fire(Direction::Right)], vec![], vec![fire(Direction::Right)]]);
    assert_eq!(health(&game, 1), 100);
}

#[test]
fn bullet_without_range_hits_nobody() {
    let mut game = Game::new(
        Grid::new_empty(3),
        vec![custom(0, 0, 0, 1, 100, 9, 0, 20), fighter(1, 1, 0)],
        1000,
        1,
    );
    game.update(vec![vec![fire(Direction::Right)]]);
    assert_eq!(health(&game, 1), 100);
    assert_eq!(wait(&game, 0), 9);
}

#[test]
fn wall_stops_a_bullet() {
    let mut game = Game::new(
        field_with(6, &[(2, 0, Cell::Wall)]),
        vec![fighter(0, 0, 0), fighter(1, 3, 0)],
        1000,
        1,
    );
    game.update(vec![vec![fire(Direction::Right)]]);
    assert_eq!(health(&game, 1), 100);
}

#[test]
fn bullet_fired_out_of_the_field_is_lost() {
    let mut game = Game::new(
        Grid::new_empty(3),
        vec![fighter(0, 0, 0), fighter(1, 2, 0), fighter(2, 2, 2)],
        1000,
        1,
    );
    game.update(vec![vec![], vec![fire(Direction::Right)], vec![fire(Direction::Top)]]);
    assert_eq!(health(&game, 0), 100);
    assert_eq!(health(&game, 1), 100);
    assert_eq!(health(&game, 2), 100);
    assert_eq!(wait(&game, 1), 2);
    assert_eq!(wait(&game, 2), 2);
}

#[test]
fn bullet_fired_into_a_wall_starts_there_and_flies_on() {
    let mut game = Game::new(
        field_with(3, &[(1, 0, Cell::Wall)]),
        vec![fighter(0, 0, 0), fighter(1, 2, 0)],
        1000,
        1,
    );
    game.update(vec![vec![fire(Direction::Right)]]);
    assert_eq!(health(&game, 1), 80);
    assert_eq!(wait(&game, 0), 2);
}

#[test]
fn bullet_fired_from_outside_the_field_flies_in() {
    let mut game = Game::new(Grid::new_empty(3), vec![fighter(0, 4, 1), fighter(1, 1, 1)], 1000, 1);
    game.update(vec![vec![fire(Direction::Left)]]);
    assert_eq!(health(&game, 1), 80);
    let mut away = Game::new(Grid::new_empty(3), vec![fighter(0, 5, 1), fighter(1, 1, 1)], 1000, 1);
    away.update(vec![vec![fire(Direction::Left)]]);
    assert_eq!(health(&away, 1), 100);
    let mut close = Game::new(Grid::new_empty(3), vec![fighter(0, 3, 1), fighter(1, 1, 1)], 1000, 1);
    close.update(vec![vec![fire(Direction::Left)]]);
    assert_eq!(health(&close, 1), 80);
}

#[test]
fn bullet_hits_only_the_first_player_on_its_cell() {
    let mut game = Game::new(
        Grid::new_empty(4),
        vec![fighter(0, 0, 0), fighter(5, 2, 0), fighter(3, 2, 0)],
        1000,
        1,
    );
    game.update(vec![vec![fire(Direction::Right)]]);
    assert_eq!(health(&game, 3), 80);
    assert_eq!(health(&game, 5), 100);
}

#[test]
fn two_bullets_hit_in_one_turn() {
    let mut game = Game::new(
        Grid::new_empty(5),
        vec![fighter(0, 0, 2), fighter(1, 2, 2), fighter(2, 2, 4)],
        1000,
        1,
    );
    game.update(vec![vec![fire(Direction::Right)], vec![Action::Nothing], vec![fire(Direction::Bottom)]]);
    assert_eq!(health(&game, 1), 60);
}

#[test]
fn dead_player_still_stops_bullets() {
    let mut game = Game::new(
        Grid::new_empty(6),
        vec![fighter(0, 0, 0), custom(1, 2, 0, 1, 10, 2, 5, 20), fighter(2, 4, 0), fighter(3, 5, 5)],
        1000,
        1,
    );
    game.update(vec![vec![fire(Direction::Right)]]);
    assert_eq!(health(&game, 1), 0);
    game.update(vec![vec![Action::Reload]]);
    game.update(vec![vec![Action::Reload]]);
    game.update(vec![vec![fire(Direction::Right)]]);
    assert_eq!(health(&game, 1), 0);
    assert_eq!(health(&game, 2), 100);
}

#[test]
fn bullets_fly_only_after_every_slot_is_played() {
    let mut game = Game::new(Grid::new_empty(5), vec![fighter(0, 1, 0), fighter(1, 2, 0)], 1000, 2);
    game.update(vec![
        vec![fire(Direction::Right), Action::Nothing],
        vec![Action::Nothing, step(Direction::Top, 1)],
    ]);
    assert_eq!(health(&game, 1), 100);
    assert_eq!(place(&game, 1), Pos::new(2, 1));
}

#[test]
fn attack_does_not_use_up_movement() {
    let mut game = Game::new(Grid::new_empty(5), vec![fighter(0, 0, 0), fighter(1, 4, 4)], 1000, 3);
    game.update(vec![vec![fire(Direction::Top), step(Direction::Right, 1), step(Direction::Right, 1)]]);
    assert_eq!(place(&game, 0), Pos::new(2, 0));
    assert_eq!(wait(&game, 0), 2);
}

#[test]
fn reload_action_counts_the_wait_down() {
    let mut game = Game::new(Grid::new_empty(5), vec![fighter(0, 0, 0), fighter(1, 4, 4)], 1000, 2);
    game.update(vec![vec![fire(Direction::Top), Action::Nothing]]);
    assert_eq!(wait(&game, 0), 2);
    game.update(vec![vec![Action::Nothing, Action::Nothing]]);
    assert_eq!(wait(&game, 0), 2);
    game.update(vec![vec![Action::Reload, Action::Nothing]]);
    assert_eq!(wait(&game, 0), 1);
    game.update(vec![vec![Action::Reload, Action::Reload]]);
    assert_eq!(wait(&game, 0), 0);
    game.update(vec![vec![Action::Reload, Action::Reload]]);
    assert_eq!(wait(&game, 0), 0);
}

#[test]
fn two_reloads_in_one_turn_count_twice() {
    let mut game = Game::new(
        Grid::new_empty(5),
        vec![custom(0, 0, 0, 1, 100, 5, 5, 20), fighter(1, 4, 4)],
        1000,
        3,
    );
    game.update(vec![vec![fire(Direction::Top), Action::Reload, Action::Reload]]);
    assert_eq!(wait(&game, 0), 3);
}

#[test]
fn waiting_weapon_fires_nothing() {
    let mut game = Game::new(Grid::new_empty(3), vec![fighter(0, 0, 0), fighter(1, 1, 0)], 1000, 2);
    game.update(vec![vec![fire(Direction::Right), fire(Direction::Right)]]);
    assert_eq!(health(&game, 1), 80);
    game.update(vec![vec![fire(Direction::Right), Action::Nothing]]);
    assert_eq!(health(&game, 1), 80);
}

#[test]
fn move_takes_no_more_steps_than_speed_or_range() {
    let mut game = Game::new(
        Grid::new_empty(10),
        vec![custom(0, 0, 0, 3, 100, 2, 5, 20), custom(1, 0, 9, 3, 100, 2, 5, 20)],
        1000,
        1,
    );
    game.update(vec![vec![step(Direction::Right, 5)], vec![step(Direction::Right, 2)]]);
    assert_eq!(place(&game, 0), Pos::new(3, 0));
    assert_eq!(place(&game, 1), Pos::new(2, 9));
    game.update(vec![vec![step(Direction::Right, 0)], vec![step(Direction::Nowhere, 3)]]);
    assert_eq!(place(&game, 0), Pos::new(3, 0));
    assert_eq!(place(&game, 1), Pos::new(2, 9));
}

#[test]
fn move_stops_at_the_edge_of_the_field() {
    let mut game = Game::new(
        Grid::new_empty(3),
        vec![custom(0, 0, 0, 9, 100, 2, 5, 20), custom(1, 1, 2, 9, 100, 2, 5, 20)],
        1000,
        2,
    );
    game.update(vec![
        vec![step(Direction::Right, 9), step(Direction::Bottom, 9)],
        vec![step(Direction::Top, 9), step(Direction::Left, 9)],
    ]);
    assert_eq!(place(&game, 0), Pos::new(2, 0));
    assert_eq!(place(&game, 1), Pos::new(0, 2));
}

#[test]
fn move_stops_before_a_wall() {
    let mut game = Game::new(
        field_with(6, &[(3, 0, Cell::Wall)]),
        vec![custom(0, 0, 0, 5, 100, 2, 5, 20), fighter(1, 5, 5)],
        1000,
        1,
    );
    game.update(vec![vec![step(Direction::Right, 5)]]);
    assert_eq!(place(&game, 0), Pos::new(2, 0));
}

#[test]
fn move_stops_before_another_player() {
    let mut game = Game::new(
        Grid::new_empty(6),
        vec![custom(0, 0, 0, 5, 100, 2, 5, 20), fighter(1, 4, 0)],
        1000,
        1,
    );
    game.update(vec![vec![step(Direction::Right, 5)]]);
    assert_eq!(place(&game, 0), Pos::new(3, 0));
    assert_eq!(place(&game, 1), Pos::new(4, 0));
}

#[test]
fn move_left_from_the_first_column_changes_nothing() {
    let mut game = Game::new(Grid::new_empty(4), vec![fighter(0, 0, 2), fighter(1, 3, 3)], 1000, 1);
    game.update(vec![vec![step(Direction::Left, 1)]]);
    assert_eq!(place(&game, 0), Pos::new(0, 2));
}

#[test]
fn player_outside_the_field_can_walk_in_but_not_about() {
    let mut game = Game::new(Grid::new_empty(3), vec![fighter(0, 3, 1), fighter(1, 7, 7)], 1000, 1);
    game.update(vec![vec![step(Direction::Left, 1)], vec![step(Direction::Left, 1)]]);
    assert_eq!(place(&game, 0), Pos::new(2, 1));
    assert_eq!(place(&game, 1), Pos::new(7, 7));
}

#[test]
fn cell_left_in_an_earlier_slot_can_be_entered() {
    let mut game = Game::new(Grid::new_empty(4), vec![fighter(0, 0, 0), fighter(1, 1, 0)], 1000, 2);
    game.update(vec![
        vec![Action::Nothing, step(Direction::Right, 1)],
        vec![step(Direction::Right, 1), Action::Nothing],
    ]);
    assert_eq!(place(&game, 0), Pos::new(1, 0));
    assert_eq!(place(&game, 1), Pos::new(2, 0));
}

#[test]
fn players_act_in_the_order_of_their_ids_within_a_slot() {
    let mut game = Game::new(Grid::new_empty(4), vec![fighter(0, 0, 0), fighter(1, 1, 0)], 1000, 1);
    game.update(vec![vec![step(Direction::Right, 1)], vec![step(Direction::Right, 1)]]);
    assert_eq!(place(&game, 0), Pos::new(0, 0));
    assert_eq!(place(&game, 1), Pos::new(2, 0));
    let mut other = Game::new(Grid::new_empty(4), vec![fighter(0, 1, 0), fighter(1, 0, 0)], 1000, 1);
    other.update(vec![vec![step(Direction::Right, 1)], vec![step(Direction::Right, 1)]]);
    assert_eq!(place(&other, 0), Pos::new(2, 0));
    assert_eq!(place(&other, 1), Pos::new(1, 0));
}

#[test]
fn first_slot_of_all_comes_before_second_slot_of_any() {
    let mut game = Game::new(Grid::new_empty(5), vec![fighter(0, 0, 0), fighter(1, 2, 1)], 1000, 2);
    game.update(vec![
        vec![fire(Direction::Right), step(Direction::Right, 1)],
        vec![step(Direction::Bottom, 1), Action::Nothing],
    ]);
    assert_eq!(place(&game, 1), Pos::new(2, 0));
    assert_eq!(place(&game, 0), Pos::new(1, 0));
    assert_eq!(health(&game, 0), 80);
    assert_eq!(health(&game, 1), 100);
}

#[test]
fn players_are_kept_in_the_order_of_their_ids() {
    let mut game = Game::new(
        Grid::new_empty(9),
        vec![fighter(7, 0, 0), fighter(2, 4, 4), fighter(5, 8, 8)],
        1,
        1,
    );
    match game.state() {
        GameState::NotStarted { info } => {
            assert_eq!(info.players()[0].character.pos, Some(Pos::new(4, 4)));
            assert_eq!(info.players()[1].character.pos, Some(Pos::new(8, 8)));
            assert_eq!(info.players()[2].character.pos, Some(Pos::new(0, 0)));
        }
        _ => panic!("the game should not have started"),
    }
    assert_eq!(game.get_player_by_id(2), Some(0));
    assert_eq!(game.get_player_by_id(5), Some(1));
    assert_eq!(game.get_player_by_id(7), Some(2));
    assert_eq!(game.get_player_by_id(0), None);
    game.update(vec![vec![step(Direction::Top, 1)], vec![], vec![step(Direction::Top, 1)]]);
    assert_eq!(place(&game, 2), Pos::new(4, 5));
    assert_eq!(place(&game, 7), Pos::new(0, 1));
    match game.state() {
        GameState::TimeIsOver { winners } => assert_eq!(winners, &vec![2u8, 5u8, 7u8]),
        _ => panic!("the game should be out of time"),
    }
}

#[test]
fn missing_and_short_batches_count_as_nothing() {
    let mut game = Game::new(Grid::new_empty(5), vec![fighter(0, 0, 0), fighter(1, 4, 4)], 1000, 2);
    game.update(vec![vec![step(Direction::Right, 1)]]);
    assert_eq!(place(&game, 0), Pos::new(1, 0));
    assert_eq!(place(&game, 1), Pos::new(4, 4));
    game.update(vec![]);
    assert_eq!(place(&game, 0), Pos::new(1, 0));
}

#[test]
fn actions_beyond_the_slots_of_a_turn_are_ignored() {
    let mut game = Game::new(Grid::new_empty(5), vec![fighter(0, 0, 0), fighter(1, 4, 4)], 1000, 1);
    game.update(vec![
        vec![step(Direction::Right, 1), step(Direction::Right, 1)],
        vec![],
        vec![fire(Direction::Top)],
    ]);
    assert_eq!(place(&game, 0), Pos::new(1, 0));
}

#[test]
fn game_without_slots_only_counts_time() {
    let mut game = Game::new(Grid::new_empty(5), vec![fighter(0, 0, 0), fighter(1, 4, 4)], 2, 0);
    assert_eq!(game.get_actions_count(), 0);
    game.update(vec![vec![step(Direction::Right, 1)], vec![fire(Direction::Top)]]);
    assert_eq!(place(&game, 0), Pos::new(0, 0));
    assert_eq!(wait(&game, 1), 0);
    assert!(matches!(game.state(), GameState::Continue { .. }));
    game.update(vec![]);
    assert!(matches!(game.state(), GameState::TimeIsOver { .. }));
}

#[test]
fn builder_uses_its_defaults() {
    let game = GameBuilder::default().add_players(vec![fighter(1, 1, 1), fighter(0, 0, 0)]).build();
    assert_eq!(game.get_actions_count(), 2);
    match game.state() {
        GameState::NotStarted { info } => {
            assert_eq!(info.map().get_size(), 5);
            assert_eq!(info.players().len(), 2);
            assert_eq!(info.players()[0].character.pos, Some(Pos::new(0, 0)));
        }
        _ => panic!("the game should not have started"),
    }
    let mut game = game;
    for _ in 0..999 {
        game.update(vec![]);
        assert!(matches!(game.state(), GameState::Continue { .. }));
    }
    game.update(vec![]);
    assert!(matches!(game.state(), GameState::TimeIsOver { .. }));
}

#[test]
fn builder_takes_what_it_is_told() {
    let mut game = GameBuilder::default()
        .add_map_size(7)
        .add_time_limit(1)
        .add_actions_count(3)
        .add_players(vec![fighter(9, 9, 9)])
        .add_players(vec![fighter(0, 0, 0), fighter(1, 6, 6)])
        .build();
    assert_eq!(game.get_actions_count(), 3);
    match game.state() {
        GameState::NotStarted { info } => {
            assert_eq!(info.map().get_size(), 7);
            assert_eq!(info.players().len(), 2);
        }
        _ => panic!("the game should not have started"),
    }
    game.update(vec![vec![step(Direction::Top, 1), step(Direction::Top, 1), step(Direction::Top, 1)]]);
    assert_eq!(place(&game, 0), Pos::new(0, 3));
    assert!(matches!(game.state(), GameState::TimeIsOver { .. }));
}

fn play_one<G: LikeGame>(game: &mut G, batch: Vec<Action>) -> usize {
    let mut batch = batch;
    game.validate_actions(&mut batch);
    let sent = batch.len();
    game.update(vec![batch]);
    sent + game.get_actions_count()
}

#[test]
fn game_can_be_driven_through_its_trait() {
    let mut game = Game::new(Grid::new_empty(5), vec![fighter(0, 0, 0), fighter(1, 4, 4)], 1000, 2);
    assert_eq!(play_one(&mut game, vec![step(Direction::Right, 1); 5]), 4);
    assert_eq!(place(&game, 0), Pos::new(2, 0));
    assert!(matches!(LikeGame::state(&game), GameState::Continue { .. }));
    assert!(LikeGame::state(&game).playable());
}

#[test]
fn player_report_of_the_game_tells_the_true_position() {
    let game = Game::new(
        field_with(3, &[(1, 1, Cell::Bushes)]),
        vec![fighter(0, 1, 1), fighter(1, 2, 2)],
        1000,
        1,
    );
    assert_eq!(game.player_state(0).character.pos, Some(Pos::new(1, 1)));
    assert_eq!(game.player_state(1).character.pos, Some(Pos::new(2, 2)));
}
