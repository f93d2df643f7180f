//! What holds of every turn, proved from the definitions of the turn and of
//! the game's state.

use vstd::prelude::*;
use crate::character::Character;
use crate::direction::Direction;
use crate::grid::{lemma_allowed_step, GridView};
use crate::player::{Action, Player};
use crate::pos::Pos;
use crate::roster::ascending;
use crate::state::{fitted, GameView, StateView};
use crate::turn::{
    act, action_of, alive_ids, fly, fly_round, fly_rounds, longest_range, may_step, occupant,
    occupant_from, occupied, play_slot, play_slots, stride, walk, TurnState,
};

verus! {

/// Whether `pos` is a cell of the field that can be entered.
pub open spec fn open_ground(grid: GridView, pos: Pos) -> bool {
    grid.contains(pos) && grid.cell_at(pos).passable()
}

/// What a turn may make of an actor: its id, its kind, its speed, its full
/// health, and its weapon's reload time and projectile stay; its health does
/// not rise; and it stands where it stood or on a cell of the field that can
/// be entered.
pub open spec fn evolves(grid: GridView, before: Player, after: Player) -> bool {
    &&& after.id == before.id
    &&& after.typ == before.typ
    &&& after.character.speed == before.character.speed
    &&& after.character.health.max == before.character.health.max
    &&& after.character.health.current <= before.character.health.current
    &&& after.character.gun.reload_time == before.character.gun.reload_time
    &&& after.character.gun.bullet == before.character.gun.bullet
    &&& (after.character.pos == before.character.pos || open_ground(grid, after.character.pos))
}

/// `evolves`, actor by actor.
pub open spec fn cast_evolves(grid: GridView, before: Seq<Player>, after: Seq<Player>) -> bool {
    &&& after.len() == before.len()
    &&& forall|j: int| 0 <= j < before.len() ==> evolves(grid, #[trigger] before[j], after[j])
}

/// The cell `count` steps from `from` in `direction`, if every step on the
/// way can be written as a position.
pub open spec fn ahead(from: Pos, direction: Direction, count: nat) -> Option<Pos>
    decreases count,
{
    if count == 0 {
        Some(from)
    } else {
        match from.shifted(direction) {
            Some(next) => ahead(next, direction, (count - 1) as nat),
            None => None,
        }
    }
}

/// No actor but `who` stands on `pos`.
pub open spec fn free_of_others(players: Seq<Player>, who: int, pos: Pos) -> bool {
    forall|j: int| 0 <= j < players.len() && j != who ==> (#[trigger] players[j]).character.pos != pos
}

/// `occupant_from` finds the first actor on `pos` at or after `from`, and
/// none only where there is none.
pub proof fn lemma_occupant_from(players: Seq<Player>, pos: Pos, from: int)
    requires
        0 <= from,
    ensures
        match occupant_from(players, pos, from) {
            Some(i) => {
                &&& from <= i < players.len()
                &&& players[i].character.pos == pos
                &&& forall|j: int| from <= j < i ==> (#[trigger] players[j]).character.pos != pos
            },
            None => forall|j: int|
                from <= j < players.len() ==> (#[trigger] players[j]).character.pos != pos,
        },
    decreases players.len() - from,
{
    if from < players.len() && players[from].character.pos != pos {
        lemma_occupant_from(players, pos, from + 1);
    }
}

/// A cell is occupied exactly if some actor stands on it, and the occupant
/// is the first of those.
pub proof fn lemma_occupant(players: Seq<Player>, pos: Pos)
    ensures
        occupied(players, pos) <==> exists|j: int|
            0 <= j < players.len() && (#[trigger] players[j]).character.pos == pos,
        occupant(players, pos) matches Some(i) ==> {
            &&& 0 <= i < players.len()
            &&& players[i].character.pos == pos
            &&& forall|j: int| 0 <= j < i ==> (#[trigger] players[j]).character.pos != pos
        },
{
    lemma_occupant_from(players, pos, 0);
}

/// What two turns in a row make of the actors, one turn could have made.
pub proof fn lemma_cast_evolves_transitive(
    grid: GridView,
    a: Seq<Player>,
    b: Seq<Player>,
    c: Seq<Player>,
)
    requires
        cast_evolves(grid, a, b),
        cast_evolves(grid, b, c),
    ensures
        cast_evolves(grid, a, c),
{
    assert forall|j: int| 0 <= j < a.len() implies evolves(grid, #[trigger] a[j], c[j]) by {
        assert(evolves(grid, a[j], b[j]));
        assert(evolves(grid, b[j], c[j]));
    }
}

/// A walk moves nobody but the walker, changes nothing of the walker but its
/// position, and takes it over cells of the field that can be entered and on
/// which no other actor stands: the walker ends some `count` cells ahead of
/// where it began, `count` no more than `steps`, and each of the cells it
/// passed or reached was such a cell.
pub proof fn lemma_walk(
    grid: GridView,
    players: Seq<Player>,
    who: int,
    direction: Direction,
    steps: nat,
)
    requires
        0 <= who < players.len(),
    ensures
        ({
            let after = walk(grid, players, who, direction, steps);
            let start = players[who].character.pos;
            &&& after.len() == players.len()
            &&& forall|j: int| 0 <= j < players.len() && j != who ==> after[j] == players[j]
            &&& after[who] == players[who].at(after[who].character.pos)
            &&& exists|count: nat|
                {
                    &&& count <= steps
                    &&& #[trigger] ahead(start, direction, count) == Some(after[who].character.pos)
                    &&& forall|k: nat|
                        1 <= k <= count ==> {
                            &&& (#[trigger] ahead(start, direction, k)) matches Some(cell)
                            &&& open_ground(grid, cell)
                            &&& free_of_others(players, who, cell)
                        }
                }
        }),
    decreases steps,
{
    let after = walk(grid, players, who, direction, steps);
    let start = players[who].character.pos;
    if steps == 0 || !may_step(grid, players, who, direction) {
        assert(ahead(start, direction, 0) == Some(after[who].character.pos));
    } else {
        let next = start.shifted(direction).unwrap();
        let moved = players.update(who, players[who].pushed(direction));
        lemma_allowed_step(grid, start, direction);
        lemma_occupant(players, next);
        lemma_walk(grid, moved, who, direction, (steps - 1) as nat);
        let rest = choose|count: nat|
            {
                &&& count <= steps - 1
                &&& #[trigger] ahead(next, direction, count) == Some(after[who].character.pos)
                &&& forall|k: nat|
                    1 <= k <= count ==> {
                        &&& (#[trigger] ahead(next, direction, k)) matches Some(cell)
                        &&& open_ground(grid, cell)
                        &&& free_of_others(moved, who, cell)
                    }
            };
        let count = rest + 1;
        assert(ahead(start, direction, count) == ahead(next, direction, rest));
        assert forall|k: nat| 1 <= k <= count implies {
            &&& (#[trigger] ahead(start, direction, k)) matches Some(cell)
            &&& open_ground(grid, cell)
            &&& free_of_others(players, who, cell)
        } by {
            assert(ahead(start, direction, k) == ahead(next, direction, (k - 1) as nat));
            if k == 1 {
                assert(ahead(next, direction, 0) == Some(next));
                assert(free_of_others(players, who, next));
            } else {
                let cell = ahead(next, direction, (k - 1) as nat).unwrap();
                assert(free_of_others(moved, who, cell));
                assert forall|j: int| 0 <= j < players.len() && j != who implies (
                #[trigger] players[j]).character.pos != cell by {
                    assert(moved[j] == players[j]);
                }
            }
        }
        assert forall|j: int| 0 <= j < players.len() && j != who implies after[j]
            == players[j] by {
            assert(moved[j] == players[j]);
        }
    }
}

/// A walk that is refused at once changes nothing.
pub proof fn lemma_walk_blocked(
    grid: GridView,
    players: Seq<Player>,
    who: int,
    direction: Direction,
    steps: nat,
)
    requires
        !may_step(grid, players, who, direction),
    ensures
        walk(grid, players, who, direction, steps) == players,
{
}

/// A push that would leave the range of positions leaves the character where
/// it is.
pub proof fn lemma_push_past_the_edge(character: Character, direction: Direction)
    requires
        character.pos.shifted(direction) is None,
    ensures
        character.pushed(direction) == character,
{
}

/// A walk leaves every actor what it could have become.
proof fn lemma_walk_evolves(
    grid: GridView,
    players: Seq<Player>,
    who: int,
    direction: Direction,
    steps: nat,
)
    requires
        0 <= who < players.len(),
    ensures
        cast_evolves(grid, players, walk(grid, players, who, direction, steps)),
{
    lemma_walk(grid, players, who, direction, steps);
    let after = walk(grid, players, who, direction, steps);
    let start = players[who].character.pos;
    let count = choose|count: nat|
        {
            &&& count <= steps
            &&& #[trigger] ahead(start, direction, count) == Some(after[who].character.pos)
            &&& forall|k: nat|
                1 <= k <= count ==> {
                    &&& (#[trigger] ahead(start, direction, k)) matches Some(cell)
                    &&& open_ground(grid, cell)
                    &&& free_of_others(players, who, cell)
                }
        };
    if count == 0 {
        assert(ahead(start, direction, 0) == Some(start));
    }
    assert forall|j: int| 0 <= j < players.len() implies evolves(
        grid,
        #[trigger] players[j],
        after[j],
    ) by {
        if j != who {
            assert(after[j] == players[j]);
        }
    }
}

/// One action leaves every actor what it could have become, and fires at
/// most one projectile, which joins the pending ones at the end.
pub proof fn lemma_act(grid: GridView, st: TurnState, who: int, action: Action)
    requires
        0 <= who < st.players.len(),
    ensures
        cast_evolves(grid, st.players, act(grid, st, who, action).players),
        act(grid, st, who, action).bullets == st.bullets || exists|bullet|
            act(grid, st, who, action).bullets == st.bullets.push(bullet),
{
    let after = act(grid, st, who, action);
    match action {
        Action::Move { direction, range } => {
            lemma_walk_evolves(grid, st.players, who, direction, stride(st.players[who], range));
        },
        Action::Attack { direction } => {
            if st.players[who].shot(direction) is Some {
                assert(after.bullets == st.bullets.push(st.players[who].shot(direction).unwrap()));
            }
        },
        Action::Reload => {},
        Action::Nothing => {},
    }
}

/// One slot leaves every actor what it could have become.
pub proof fn lemma_play_slot(
    grid: GridView,
    st: TurnState,
    batches: Seq<Seq<Action>>,
    slot: int,
    upto: nat,
)
    requires
        upto <= st.players.len(),
    ensures
        cast_evolves(grid, st.players, play_slot(grid, st, batches, slot, upto).players),
    decreases upto,
{
    if upto > 0 {
        let who = (upto - 1) as nat;
        let before = play_slot(grid, st, batches, slot, who);
        lemma_play_slot(grid, st, batches, slot, who);
        lemma_act(grid, before, who as int, action_of(batches, who as int, slot));
        lemma_cast_evolves_transitive(
            grid,
            st.players,
            before.players,
            play_slot(grid, st, batches, slot, upto).players,
        );
    }
}

/// The slots of a turn leave every actor what it could have become.
pub proof fn lemma_play_slots(
    grid: GridView,
    st: TurnState,
    batches: Seq<Seq<Action>>,
    slots: nat,
)
    ensures
        cast_evolves(grid, st.players, play_slots(grid, st, batches, slots).players),
    decreases slots,
{
    if slots > 0 {
        let before = play_slots(grid, st, batches, (slots - 1) as nat);
        lemma_play_slots(grid, st, batches, (slots - 1) as nat);
        lemma_play_slot(grid, before, batches, slots - 1, before.players.len());
        lemma_cast_evolves_transitive(
            grid,
            st.players,
            before.players,
            play_slots(grid, st, batches, slots).players,
        );
    }
}

/// One go of one projectile moves no actor, hurts at most the first actor on
/// the projectile's cell, and neither adds nor removes a projectile.
pub proof fn lemma_fly(grid: GridView, st: TurnState, which: int)
    requires
        0 <= which < st.bullets.len(),
    ensures
        cast_evolves(grid, st.players, fly(grid, st, which).players),
        fly(grid, st, which).bullets.len() == st.bullets.len(),
        forall|j: int|
            0 <= j < st.players.len() ==> (#[trigger] fly(grid, st, which).players[j]).character.pos
                == st.players[j].character.pos,
{
    lemma_occupant(st.players, st.bullets[which].pos);
}

/// One round of flight moves no actor and keeps the number of projectiles.
pub proof fn lemma_fly_round(grid: GridView, st: TurnState, upto: nat)
    requires
        upto <= st.bullets.len(),
    ensures
        cast_evolves(grid, st.players, fly_round(grid, st, upto).players),
        fly_round(grid, st, upto).bullets.len() == st.bullets.len(),
        forall|j: int|
            0 <= j < st.players.len() ==> (#[trigger] fly_round(
                grid,
                st,
                upto,
            ).players[j]).character.pos == st.players[j].character.pos,
    decreases upto,
{
    if upto > 0 {
        let before = fly_round(grid, st, (upto - 1) as nat);
        lemma_fly_round(grid, st, (upto - 1) as nat);
        lemma_fly(grid, before, upto - 1);
        lemma_cast_evolves_transitive(
            grid,
            st.players,
            before.players,
            fly_round(grid, st, upto).players,
        );
    }
}

/// The flight moves no actor and keeps the number of projectiles.
pub proof fn lemma_fly_rounds(grid: GridView, st: TurnState, rounds: nat)
    ensures
        cast_evolves(grid, st.players, fly_rounds(grid, st, rounds).players),
        fly_rounds(grid, st, rounds).bullets.len() == st.bullets.len(),
        forall|j: int|
            0 <= j < st.players.len() ==> (#[trigger] fly_rounds(
                grid,
                st,
                rounds,
            ).players[j]).character.pos == st.players[j].character.pos,
    decreases rounds,
{
    if rounds > 0 {
        let before = fly_rounds(grid, st, (rounds - 1) as nat);
        lemma_fly_rounds(grid, st, (rounds - 1) as nat);
        lemma_fly_round(grid, before, before.bullets.len());
        lemma_cast_evolves_transitive(
            grid,
            st.players,
            before.players,
            fly_rounds(grid, st, rounds).players,
        );
    }
}

/// A turn leaves every actor what it could have become: the same actor, no
/// healthier, and standing where it stood or on a cell of the field that can
/// be entered.
pub proof fn lemma_resolved(g: GameView, batches: Seq<Seq<Action>>)
    ensures
        cast_evolves(g.grid, g.players, g.resolved(batches)),
{
    let start = TurnState { players: g.players, bullets: g.bullets };
    let acted = play_slots(g.grid, start, batches, g.actions_count as nat);
    lemma_play_slots(g.grid, start, batches, g.actions_count as nat);
    lemma_fly_rounds(g.grid, acted, longest_range(acted.bullets));
    lemma_cast_evolves_transitive(g.grid, g.players, acted.players, g.resolved(batches));
}

/// Actors that a turn could have made of actors in the rising order of their
/// ids are in that order too.
pub proof fn lemma_evolved_cast_ascending(grid: GridView, before: Seq<Player>, after: Seq<Player>)
    requires
        cast_evolves(grid, before, after),
        ascending(before),
    ensures
        ascending(after),
{
    assert forall|i: int, j: int| 0 <= i < j < after.len() implies (#[trigger] after[i]).id < (
    #[trigger] after[j]).id by {
        assert(evolves(grid, before[i], after[i]));
        assert(evolves(grid, before[j], after[j]));
    }
}

/// A call for a turn takes a well-formed game to a well-formed game.
pub proof fn lemma_tick_wf(g: GameView, batches: Seq<Seq<Action>>)
    requires
        g.wf(),
    ensures
        g.tick(batches).wf(),
{
    if g.state.playable() {
        lemma_resolved(g, batches);
        lemma_evolved_cast_ascending(g.grid, g.players, g.resolved(batches));
    }
}

/// A call for a turn neither adds nor removes an actor, and leaves every
/// actor what it could have become: the same actor, no healthier, standing
/// where it stood or on a cell of the field that can be entered. So no actor
/// that stood in the field ever leaves it. The field itself and the number of
/// slots stay.
pub proof fn lemma_tick_keeps_the_cast(g: GameView, batches: Seq<Seq<Action>>)
    ensures
        cast_evolves(g.grid, g.players, g.tick(batches).players),
        forall|j: int|
            0 <= j < g.players.len() && g.grid.contains((#[trigger] g.players[j]).character.pos)
                ==> g.grid.contains(g.tick(batches).players[j].character.pos),
        g.tick(batches).grid == g.grid,
        g.tick(batches).actions_count == g.actions_count,
{
    lemma_resolved(g, batches);
    assert forall|j: int|
        0 <= j < g.players.len() && g.grid.contains(
            (#[trigger] g.players[j]).character.pos,
        ) implies g.grid.contains(g.tick(batches).players[j].character.pos) by {
        assert(evolves(g.grid, g.players[j], g.tick(batches).players[j]));
    }
}

/// The ids of the actors that are alive, as a set.
pub open spec fn alive_set(players: Seq<Player>) -> Set<u8> {
    Set::new(
        |id: u8|
            exists|i: int|
                0 <= i < players.len() && (#[trigger] players[i]).id == id && players[i].living(),
    )
}

/// The sequence of the ids of those alive holds the id of every actor that is
/// alive and of no other; and where the actors stand in rising order of ids,
/// so do the ids of those alive.
pub proof fn lemma_alive_ids(players: Seq<Player>)
    ensures
        forall|k: int|
            0 <= k < alive_ids(players).len() ==> exists|i: int|
                0 <= i < players.len() && (#[trigger] players[i]).id == #[trigger] alive_ids(
                    players,
                )[k] && players[i].living(),
        forall|i: int|
            0 <= i < players.len() && (#[trigger] players[i]).living() ==> alive_ids(
                players,
            ).contains(players[i].id),
        ascending(players) ==> forall|k: int, l: int|
            0 <= k < l < alive_ids(players).len() ==> alive_ids(players)[k] < alive_ids(players)[l],
        alive_ids(players).len() <= players.len(),
    decreases players.len(),
{
    if players.len() > 0 {
        let front = players.drop_last();
        let last = players.last();
        let here = alive_ids(players);
        let before = alive_ids(front);
        lemma_alive_ids(front);
        assert(last == players[players.len() - 1]);
        assert forall|k: int| 0 <= k < here.len() implies exists|i: int|
            0 <= i < players.len() && (#[trigger] players[i]).id == #[trigger] here[k]
                && players[i].living() by {
            if k < before.len() {
                let i = choose|i: int|
                    0 <= i < front.len() && (#[trigger] front[i]).id == before[k]
                        && front[i].living();
                assert(players[i] == front[i]);
            } else {
                assert(players[players.len() - 1].id == here[k]);
            }
        }
        assert forall|i: int| 0 <= i < players.len() && (#[trigger] players[i]).living() implies here.contains(
            players[i].id,
        ) by {
            if i < front.len() {
                assert(front[i] == players[i]);
                assert(before.contains(front[i].id));
                let k = choose|k: int| 0 <= k < before.len() && before[k] == front[i].id;
                assert(here[k] == players[i].id);
            } else {
                assert(here[here.len() - 1] == players[i].id);
            }
        }
        if ascending(players) {
            assert(ascending(front)) by {
                assert forall|i: int, j: int| 0 <= i < j < front.len() implies (
                #[trigger] front[i]).id < (#[trigger] front[j]).id by {
                    assert(front[i] == players[i] && front[j] == players[j]);
                }
            }
            assert forall|k: int, l: int| 0 <= k < l < here.len() implies here[k] < here[l] by {
                if l >= before.len() {
                    let i = choose|i: int|
                        0 <= i < front.len() && (#[trigger] front[i]).id == before[k]
                            && front[i].living();
                    assert(players[i] == front[i]);
                    assert(players[i].id < players[players.len() - 1].id);
                }
            }
        }
    }
}

/// Where the actors stand in rising order of ids, the sequence of the ids of
/// those alive holds each of them once: it is the set of those ids, in order.
pub proof fn lemma_alive_ids_is_alive_set(players: Seq<Player>)
    requires
        ascending(players),
    ensures
        alive_ids(players).no_duplicates(),
        alive_ids(players).to_set() == alive_set(players),
        alive_set(players).finite(),
        alive_set(players).len() == alive_ids(players).len(),
{
    lemma_alive_ids(players);
    let listed = alive_ids(players);
    assert(listed.to_set() =~= alive_set(players)) by {
        assert forall|id: u8| listed.to_set().contains(id) <==> alive_set(players).contains(
            id,
        ) by {
            if listed.to_set().contains(id) {
                assert(listed.contains(id));
                let k = choose|k: int| 0 <= k < listed.len() && listed[k] == id;
                assert(listed[k] == id);
            }
            if alive_set(players).contains(id) {
                let i = choose|i: int|
                    0 <= i < players.len() && (#[trigger] players[i]).id == id
                        && players[i].living();
                assert(listed.contains(players[i].id));
            }
        }
    }
    listed.unique_seq_to_set();
    vstd::seq_lib::seq_to_set_is_finite(listed);
}

/// Whenever at most one actor is alive after a call for a turn, the game has
/// ended, and its state carries exactly the ids of those alive: one, or none.
pub proof fn lemma_sole_survivor_ends_the_game(g: GameView, batches: Seq<Seq<Action>>)
    requires
        g.wf(),
    ensures
        ({
            let after = g.tick(batches);
            alive_set(after.players).len() <= 1 ==> {
                &&& after.state == (StateView::End { winners: alive_ids(after.players) })
                &&& alive_ids(after.players).to_set() == alive_set(after.players)
            }
        }),
{
    lemma_tick_wf(g, batches);
    lemma_alive_ids_is_alive_set(g.tick(batches).players);
}

/// No projectile outlives the turn in which it was fired: after every call
/// for a turn, none is in flight.
pub proof fn lemma_no_bullet_outlives_its_turn(g: GameView, batches: Seq<Seq<Action>>)
    requires
        g.wf() || g.state.playable(),
    ensures
        g.tick(batches).bullets == Seq::<crate::character::Bullet>::empty(),
{
    assert(g.tick(batches).bullets =~= Seq::<crate::character::Bullet>::empty());
}

/// A game that is over stays exactly as it is, whatever is asked of it.
pub proof fn lemma_over_is_over(g: GameView, batches: Seq<Seq<Action>>)
    requires
        g.state.terminal(),
    ensures
        g.tick(batches) == g,
{
}

/// A turn that is played on the last count of the countdown, or with none
/// left, and leaves several actors alive, ends the game for want of time,
/// and the state carries the ids of those alive.
pub proof fn lemma_last_turn_runs_out_of_time(g: GameView, batches: Seq<Seq<Action>>)
    requires
        g.state.playable(),
        g.ticks <= 1,
        alive_ids(g.tick(batches).players).len() >= 2,
    ensures
        g.tick(batches).state == (StateView::TimeIsOver {
            winners: alive_ids(g.tick(batches).players),
        }),
        g.tick(batches).ticks == 0,
{
}

/// Fitting a batch leaves one of the right length as it is, fills a shorter
/// one up with `Action::Nothing`, and cuts a longer one.
pub proof fn lemma_fitted(batch: Seq<Action>, count: nat)
    ensures
        fitted(batch, count).len() == count,
        batch.len() == count ==> fitted(batch, count) == batch,
        batch.len() < count ==> fitted(batch, count) == batch + Seq::new(
            (count - batch.len()) as nat,
            |i: int| Action::Nothing,
        ),
        batch.len() > count ==> fitted(batch, count) == batch.take(count as int),
        fitted(fitted(batch, count), count) == fitted(batch, count),
{
    if batch.len() == count {
        assert(fitted(batch, count) =~= batch);
    } else if batch.len() < count {
        assert(fitted(batch, count) =~= batch + Seq::new(
            (count - batch.len()) as nat,
            |i: int| Action::Nothing,
        ));
    } else {
        assert(fitted(batch, count) =~= batch.take(count as int));
    }
    assert(fitted(fitted(batch, count), count) =~= fitted(batch, count));
}

/// The batches of `players` actors, each made to fit `count` slots; of an
/// actor without a batch, one of nothing but `Action::Nothing`.
pub open spec fn fitted_all(batches: Seq<Seq<Action>>, players: nat, count: nat) -> Seq<
    Seq<Action>,
> {
    Seq::new(
        players,
        |i: int|
            if i < batches.len() {
                fitted(batches[i], count)
            } else {
                fitted(Seq::empty(), count)
            },
    )
}

/// One slot depends on the batches only through the actions that the actors
/// who act have in that slot.
proof fn lemma_play_slot_same_actions(
    grid: GridView,
    st: TurnState,
    first: Seq<Seq<Action>>,
    second: Seq<Seq<Action>>,
    slot: int,
    upto: nat,
)
    requires
        forall|who: int| 0 <= who < upto ==> action_of(first, who, slot) == action_of(second, who, slot),
    ensures
        play_slot(grid, st, first, slot, upto) == play_slot(grid, st, second, slot, upto),
    decreases upto,
{
    if upto > 0 {
        lemma_play_slot_same_actions(grid, st, first, second, slot, (upto - 1) as nat);
    }
}

/// The slots of a turn depend on the batches only through the actions that
/// the actors have in those slots.
proof fn lemma_play_slots_same_actions(
    grid: GridView,
    st: TurnState,
    first: Seq<Seq<Action>>,
    second: Seq<Seq<Action>>,
    slots: nat,
)
    requires
        forall|who: int, slot: int|
            0 <= who < st.players.len() && 0 <= slot < slots ==> action_of(first, who, slot)
                == action_of(second, who, slot),
    ensures
        play_slots(grid, st, first, slots) == play_slots(grid, st, second, slots),
    decreases slots,
{
    if slots > 0 {
        let before = play_slots(grid, st, first, (slots - 1) as nat);
        lemma_play_slots_same_actions(grid, st, first, second, (slots - 1) as nat);
        lemma_play_slots(grid, st, first, (slots - 1) as nat);
        lemma_play_slot_same_actions(grid, before, first, second, slots - 1, before.players.len());
    }
}

/// A turn takes every batch as if it had been made to fit: what is missing
/// counts as `Action::Nothing`, and what is beyond the slots of a turn is
/// not looked at.
pub proof fn lemma_tick_fits_batches(g: GameView, batches: Seq<Seq<Action>>)
    ensures
        g.tick(batches) == g.tick(fitted_all(batches, g.players.len(), g.actions_count as nat)),
{
    let start = TurnState { players: g.players, bullets: g.bullets };
    lemma_play_slots_same_actions(
        g.grid,
        start,
        batches,
        fitted_all(batches, g.players.len(), g.actions_count as nat),
        g.actions_count as nat,
    );
}

} // verus!
