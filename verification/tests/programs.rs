use arena_game::client_api::{player_program, MyState, Response};
use arena_game::direction::Direction;
use arena_game::game::{Game, GameInfo, GameState};
use arena_game::grid::Grid;
use arena_game::player::{Action, Player};
use arena_game::pos::Pos;

fn snapshot_of(game: &Game) -> GameInfo {
    match game.state() {
        GameState::NotStarted { info } | GameState::Continue { info } => {
            GameInfo { map: info.map().clone(), players: info.players().clone() }
        }
        _ => panic!("the game should be running"),
    }
}

fn game_of_two() -> Game {
    Game::new(
        Grid::new_empty(5),
        vec![Player::new_default_player(0, Pos::new(1, 0)), Player::new_default_player(1, Pos::new(4, 4))],
        1000,
        2,
    )
}

#[test]
fn response_holds_a_copy_of_the_actions() {
    let actions = [Action::Reload, Action::Attack { direction: Direction::Left }];
    let response = Response::new(&actions);
    assert_eq!(response.actions, vec![Action::Reload, Action::Attack { direction: Direction::Left }]);
    assert!(Response::new(&[]).actions.is_empty());
}

#[test]
fn sample_program_walks_a_square() {
    let game = game_of_two();
    let mut state = MyState { direction_now: Direction::Nowhere };
    let mut seen = vec![];
    for _ in 0..5 {
        player_program(&mut state, snapshot_of(&game));
        seen.push(state.direction_now);
    }
    assert_eq!(
        seen,
        vec![Direction::Top, Direction::Right, Direction::Bottom, Direction::Left, Direction::Top]
    );
}

#[test]
fn sample_program_fires_with_a_ready_weapon() {
    let game = game_of_two();
    let mut state = MyState { direction_now: Direction::Top };
    let program = player_program(&mut state, snapshot_of(&game));
    assert_eq!(
        program,
        [
            Action::Move { direction: Direction::Right, range: 2 },
            Action::Attack { direction: Direction::Right }
        ]
    );
}

#[test]
fn sample_program_reloads_a_waiting_weapon() {
    let mut game = game_of_two();
    game.update(vec![vec![Action::Attack { direction: Direction::Top }]]);
    let mut state = MyState { direction_now: Direction::Left };
    let program = player_program(&mut state, snapshot_of(&game));
    assert_eq!(program, [Action::Move { direction: Direction::Top, range: 2 }, Action::Reload]);
}
