//! How one turn unfolds, as mathematics: what one action does to the actors
//! and the pending projectiles, in what order the actions of a turn are
//! taken, and how the projectiles fly once every action is done.
//!
//! Everything here is a spec function over sequences. The engine's
//! executable code is proved to compute exactly these functions.

use vstd::prelude::*;
use crate::character::Bullet;
use crate::direction::Direction;
use crate::grid::{CanMove, GridView};
use crate::player::{Action, Player};
use crate::pos::Pos;

verus! {

/// What a turn changes: the actors, in the order of their ids, and the
/// projectiles fired so far in this turn, in the order of firing.
pub struct TurnState {
    pub players: Seq<Player>,
    pub bullets: Seq<Bullet>,
}

/// The first actor at or after index `from` that stands on `pos`.
pub open spec fn occupant_from(players: Seq<Player>, pos: Pos, from: int) -> Option<int>
    decreases players.len() - from,
{
    if from < 0 || from >= players.len() {
        None
    } else if players[from].character.pos == pos {
        Some(from)
    } else {
        occupant_from(players, pos, from + 1)
    }
}

/// The first actor, in the order of ids, that stands on `pos`.
pub open spec fn occupant(players: Seq<Player>, pos: Pos) -> Option<int> {
    occupant_from(players, pos, 0)
}

/// Whether any actor stands on `pos`.
pub open spec fn occupied(players: Seq<Player>, pos: Pos) -> bool {
    occupant(players, pos) is Some
}

/// Whether actor `who` may take one step in `direction` right now: the field
/// allows the step and no actor stands on the cell ahead.
pub open spec fn may_step(
    grid: GridView,
    players: Seq<Player>,
    who: int,
    direction: Direction,
) -> bool {
    let from = players[who].character.pos;
    &&& grid.verdict(from, direction) == CanMove::Yes
    &&& !occupied(players, from.shifted(direction).unwrap())
}

/// The actors after `who` has walked up to `steps` cells in `direction`.
/// Every step asks anew, of the field and of the actors as they stand then;
/// the first refusal ends the walk.
pub open spec fn walk(
    grid: GridView,
    players: Seq<Player>,
    who: int,
    direction: Direction,
    steps: nat,
) -> Seq<Player>
    decreases steps,
{
    if steps == 0 || !may_step(grid, players, who, direction) {
        players
    } else {
        walk(
            grid,
            players.update(who, players[who].pushed(direction)),
            who,
            direction,
            (steps - 1) as nat,
        )
    }
}

/// How many steps a move of `range` may take for an actor.
pub open spec fn stride(player: Player, range: u8) -> nat {
    if player.character.speed < range {
        player.character.speed as nat
    } else {
        range as nat
    }
}

/// The turn after actor `who` has done `action`. A move walks; an attack
/// tries to fire, and what it releases joins the pending projectiles; a
/// reload counts the weapon's wait down by one. Nothing else counts that
/// wait down: a turn in which an actor does not reload leaves it as it is.
pub open spec fn act(grid: GridView, st: TurnState, who: int, action: Action) -> TurnState {
    let player = st.players[who];
    match action {
        Action::Move { direction, range } => TurnState {
            players: walk(grid, st.players, who, direction, stride(player, range)),
            bullets: st.bullets,
        },
        Action::Attack { direction } => TurnState {
            players: st.players.update(who, player.fired()),
            bullets: match player.shot(direction) {
                Some(bullet) => st.bullets.push(bullet),
                None => st.bullets,
            },
        },
        Action::Reload => TurnState {
            players: st.players.update(who, player.cooled()),
            bullets: st.bullets,
        },
        Action::Nothing => st,
    }
}

/// The action of actor `who` in slot `slot`. A batch that is missing, or too
/// short to reach the slot, counts as doing nothing.
pub open spec fn action_of(batches: Seq<Seq<Action>>, who: int, slot: int) -> Action {
    if 0 <= who < batches.len() && 0 <= slot < batches[who].len() {
        batches[who][slot]
    } else {
        Action::Nothing
    }
}

/// The turn after the first `upto` actors have done what they do in `slot`.
pub open spec fn play_slot(
    grid: GridView,
    st: TurnState,
    batches: Seq<Seq<Action>>,
    slot: int,
    upto: nat,
) -> TurnState
    decreases upto,
{
    if upto == 0 {
        st
    } else {
        let who = upto - 1;
        act(grid, play_slot(grid, st, batches, slot, who as nat), who, action_of(batches, who, slot))
    }
}

/// The turn after the first `slots` slots. Within a slot the actors act in
/// the order of their ids, and every actor has done what it does in one slot
/// before any actor starts on the next.
pub open spec fn play_slots(
    grid: GridView,
    st: TurnState,
    batches: Seq<Seq<Action>>,
    slots: nat,
) -> TurnState
    decreases slots,
{
    if slots == 0 {
        st
    } else {
        let before = play_slots(grid, st, batches, (slots - 1) as nat);
        play_slot(grid, before, batches, slots - 1, before.players.len())
    }
}

/// The longest remaining range among `bullets`, 0 where there is none.
pub open spec fn longest_range(bullets: Seq<Bullet>) -> nat
    decreases bullets.len(),
{
    if bullets.len() == 0 {
        0
    } else {
        let rest = longest_range(bullets.drop_last());
        if bullets.last().range > rest {
            bullets.last().range as nat
        } else {
            rest
        }
    }
}

/// The turn after projectile `which` has had one go. One without range is
/// passed over. One that shares its cell with an actor hits the first such
/// actor and is spent. Any other moves one cell on if the field allows it,
/// and else stays as it is.
pub open spec fn fly(grid: GridView, st: TurnState, which: int) -> TurnState {
    let bullet = st.bullets[which];
    if !bullet.live() {
        st
    } else {
        match occupant(st.players, bullet.pos) {
            Some(hit) => TurnState {
                players: st.players.update(hit, st.players[hit].damaged(bullet.damage)),
                bullets: st.bullets.update(which, bullet.spent()),
            },
            None => if grid.verdict(bullet.pos, bullet.direction) == CanMove::Yes {
                TurnState {
                    players: st.players,
                    bullets: st.bullets.update(which, bullet.pushed(bullet.direction)),
                }
            } else {
                st
            },
        }
    }
}

/// The turn after the first `upto` projectiles have each had one go.
pub open spec fn fly_round(grid: GridView, st: TurnState, upto: nat) -> TurnState
    decreases upto,
{
    if upto == 0 {
        st
    } else {
        fly(grid, fly_round(grid, st, (upto - 1) as nat), upto - 1)
    }
}

/// The turn after `rounds` rounds, in each of which every projectile has one
/// go, in the order of firing.
pub open spec fn fly_rounds(grid: GridView, st: TurnState, rounds: nat) -> TurnState
    decreases rounds,
{
    if rounds == 0 {
        st
    } else {
        let before = fly_rounds(grid, st, (rounds - 1) as nat);
        fly_round(grid, before, before.bullets.len())
    }
}

/// The turn after the projectiles have flown: as many rounds as the longest
/// range among them when the flight begins.
pub open spec fn settle(grid: GridView, st: TurnState) -> TurnState {
    fly_rounds(grid, st, longest_range(st.bullets))
}

/// The ids of the actors that are alive, in the order of the actors.
pub open spec fn alive_ids(players: Seq<Player>) -> Seq<u8>
    decreases players.len(),
{
    if players.len() == 0 {
        Seq::empty()
    } else {
        let rest = alive_ids(players.drop_last());
        if players.last().living() {
            rest.push(players.last().id)
        } else {
            rest
        }
    }
}

} // verus!
