//! What a participant's own program works with: the answer it sends for a
//! turn, and a small strategy to start from.

use vstd::prelude::*;
use crate::direction::Direction;
use crate::game::GameInfo;
use crate::player::Action;

verus! {

/// The answer of a participant for one turn.
pub struct Response {
    pub actions: Vec<Action>,
}

impl Response {
    /// An answer with a copy of `actions`.
    pub fn new(actions: &[Action]) -> (response: Response)
        ensures
            response.actions@ == actions@,
    {
        let mut copy: Vec<Action> = Vec::with_capacity(actions.len());
        let mut i: usize = 0;
        while i < actions.len()
            invariant
                i <= actions.len(),
                copy@ == actions@.take(i as int),
            decreases actions.len() - i,
        {
            copy.push(actions[i]);
            i += 1;
        }
        assert(actions@.take(i as int) == actions@);
        Response { actions: copy }
    }
}

/// What the sample strategy remembers from turn to turn.
pub struct MyState {
    pub direction_now: Direction,
}

/// The direction the sample strategy takes after `direction`: it walks a
/// square, and sets out to the top.
pub open spec fn turned(direction: Direction) -> Direction {
    match direction {
        Direction::Bottom => Direction::Left,
        Direction::Top => Direction::Right,
        Direction::Left => Direction::Top,
        Direction::Right => Direction::Bottom,
        Direction::Nowhere => Direction::Top,
    }
}

/// A sample strategy for the participant whose report comes first in
/// `game_state`, which must hold one. It turns, moves two cells the new way,
/// and then fires that way if its weapon is ready, and cools it down if not.
pub fn player_program(my_state: &mut MyState, game_state: GameInfo) -> (program: [Action; 2])
    requires
        game_state@.players.len() > 0,
    ensures
        final(my_state).direction_now == turned(old(my_state).direction_now),
        program[0] == (Action::Move { direction: final(my_state).direction_now, range: 2 }),
        program[1] == if game_state@.players[0].character.gun_reloading_await == 0 {
            Action::Attack { direction: final(my_state).direction_now }
        } else {
            Action::Reload
        },
{
    let direction_now = my_state.direction_now;
    match direction_now {
        Direction::Bottom => my_state.direction_now = Direction::Left,
        Direction::Top => my_state.direction_now = Direction::Right,
        Direction::Left => my_state.direction_now = Direction::Top,
        Direction::Right => my_state.direction_now = Direction::Bottom,
        Direction::Nowhere => my_state.direction_now = Direction::Top,
    };
    if game_state.players()[0].character.gun_reloading_await == 0 {
        [
            Action::Move { direction: my_state.direction_now, range: 2 },
            Action::Attack { direction: my_state.direction_now },
        ]
    } else {
        [Action::Move { direction: my_state.direction_now, range: 2 }, Action::Reload]
    }
}

} // verus!
