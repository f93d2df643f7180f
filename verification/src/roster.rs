//! The order of the actors of a game: by id, fixed when the game is made.

use vstd::prelude::*;
use crate::player::Player;
use crate::traits::WithId;

verus! {

/// No two of `players` share an id.
pub open spec fn distinct_ids(players: Seq<Player>) -> bool {
    forall|i: int, j: int|
        0 <= i < j < players.len() ==> (#[trigger] players[i]).id != (#[trigger] players[j]).id
}

/// The ids of `players` rise from each to the next.
pub open spec fn ascending(players: Seq<Player>) -> bool {
    forall|i: int, j: int|
        0 <= i < j < players.len() ==> (#[trigger] players[i]).id < (#[trigger] players[j]).id
}

/// Those of `players` whose id is `id`, in their order.
pub open spec fn with_id(players: Seq<Player>, id: u8) -> Seq<Player>
    decreases players.len(),
{
    if players.len() == 0 {
        Seq::empty()
    } else {
        let rest = with_id(players.drop_last(), id);
        if players.last().id == id {
            rest.push(players.last())
        } else {
            rest
        }
    }
}

/// Those of `players` whose id is below `bound`: first those with id 0, then
/// those with id 1, and so on, each group in the order it had in `players`.
pub open spec fn by_id_below(players: Seq<Player>, bound: nat) -> Seq<Player>
    decreases bound,
{
    if bound == 0 {
        Seq::empty()
    } else {
        by_id_below(players, (bound - 1) as nat) + with_id(players, (bound - 1) as u8)
    }
}

/// `players` in the order of their ids. Players that share an id keep the
/// order they had.
pub open spec fn by_id(players: Seq<Player>) -> Seq<Player> {
    by_id_below(players, 256)
}

/// Every member of `with_id(players, id)` has the id `id` and is one of
/// `players`.
pub proof fn lemma_with_id_members(players: Seq<Player>, id: u8)
    ensures
        forall|k: int|
            0 <= k < with_id(players, id).len() ==> {
                &&& (#[trigger] with_id(players, id)[k]).id == id
                &&& players.contains(with_id(players, id)[k])
            },
        with_id(players, id).len() <= players.len(),
    decreases players.len(),
{
    if players.len() > 0 {
        let front = players.drop_last();
        lemma_with_id_members(front, id);
        assert forall|k: int| 0 <= k < with_id(players, id).len() implies {
            &&& (#[trigger] with_id(players, id)[k]).id == id
            &&& players.contains(with_id(players, id)[k])
        } by {
            if k < with_id(front, id).len() {
                let p = with_id(front, id)[k];
                assert(front.contains(p));
                let w = choose|w: int| 0 <= w < front.len() && front[w] == p;
                assert(players[w] == p);
            } else {
                assert(players[players.len() - 1] == players.last());
            }
        }
    }
}

/// Where no two players share an id, at most one has any given id.
pub proof fn lemma_with_id_of_distinct(players: Seq<Player>, id: u8)
    requires
        distinct_ids(players),
    ensures
        with_id(players, id).len() <= 1,
    decreases players.len(),
{
    if players.len() > 0 {
        let front = players.drop_last();
        assert(distinct_ids(front)) by {
            assert forall|i: int, j: int| 0 <= i < j < front.len() implies (#[trigger] front[i]).id
                != (#[trigger] front[j]).id by {
                assert(front[i] == players[i] && front[j] == players[j]);
            }
        }
        lemma_with_id_of_distinct(front, id);
        if players.last().id == id && with_id(front, id).len() > 0 {
            lemma_with_id_members(front, id);
            let p = with_id(front, id)[0];
            assert(front.contains(p));
            let w = choose|w: int| 0 <= w < front.len() && front[w] == p;
            assert(players[w].id == players[players.len() - 1].id);
        }
    }
}

/// Sorting players with distinct ids puts the ids in rising order, each below
/// the bound.
pub proof fn lemma_by_id_below_ascending(players: Seq<Player>, bound: nat)
    requires
        distinct_ids(players),
        bound <= 256,
    ensures
        ascending(by_id_below(players, bound)),
        forall|k: int|
            0 <= k < by_id_below(players, bound).len() ==> (#[trigger] by_id_below(
                players,
                bound,
            )[k]).id < bound,
    decreases bound,
{
    if bound > 0 {
        let before = by_id_below(players, (bound - 1) as nat);
        let group = with_id(players, (bound - 1) as u8);
        lemma_by_id_below_ascending(players, (bound - 1) as nat);
        lemma_with_id_members(players, (bound - 1) as u8);
        lemma_with_id_of_distinct(players, (bound - 1) as u8);
        let all = before + group;
        assert forall|k: int| 0 <= k < all.len() implies (#[trigger] all[k]).id < bound by {
            if k >= before.len() {
                assert(all[k] == group[k - before.len()]);
            } else {
                assert(all[k] == before[k]);
            }
        }
        assert forall|i: int, j: int| 0 <= i < j < all.len() implies (#[trigger] all[i]).id < (
        #[trigger] all[j]).id by {
            if j < before.len() {
                assert(all[i] == before[i] && all[j] == before[j]);
            } else {
                assert(all[j] == group[j - before.len()]);
                assert(all[i] == before[i]);
            }
        }
    }
}

/// Sorting players with distinct ids puts the ids in rising order.
pub proof fn lemma_by_id_ascending(players: Seq<Player>)
    requires
        distinct_ids(players),
    ensures
        ascending(by_id(players)),
{
    lemma_by_id_below_ascending(players, 256);
}

/// Those of `players` whose id is below `bound`, in their order.
pub open spec fn below(players: Seq<Player>, bound: nat) -> Seq<Player>
    decreases players.len(),
{
    if players.len() == 0 {
        Seq::empty()
    } else {
        let rest = below(players.drop_last(), bound);
        if players.last().id < bound {
            rest.push(players.last())
        } else {
            rest
        }
    }
}

/// All ids are below 256.
proof fn lemma_below_all(players: Seq<Player>)
    ensures
        below(players, 256) == players,
    decreases players.len(),
{
    if players.len() > 0 {
        lemma_below_all(players.drop_last());
        assert(players.drop_last().push(players.last()) == players);
    }
}

/// The players with an id below `bound + 1` are those with an id below
/// `bound` and those with the id `bound`, as far as counting goes.
proof fn lemma_below_splits(players: Seq<Player>, bound: nat)
    requires
        bound < 256,
    ensures
        below(players, bound + 1).to_multiset() == below(players, bound).to_multiset().add(
            with_id(players, bound as u8).to_multiset(),
        ),
    decreases players.len(),
{
    broadcast use vstd::seq_lib::group_to_multiset_ensures;

    let lower = below(players, bound);
    let group = with_id(players, bound as u8);
    let upper = below(players, bound + 1);
    if players.len() == 0 {
        assert(upper.to_multiset() =~= lower.to_multiset().add(group.to_multiset()));
    } else {
        let front = players.drop_last();
        let last = players.last();
        lemma_below_splits(front, bound);
        assert(upper.to_multiset() =~= lower.to_multiset().add(group.to_multiset()));
    }
}

/// Sorting by id up to a bound keeps every player with an id below the
/// bound, each as often as it occurred.
proof fn lemma_by_id_below_permutes(players: Seq<Player>, bound: nat)
    requires
        bound <= 256,
    ensures
        by_id_below(players, bound).to_multiset() == below(players, bound).to_multiset(),
    decreases bound,
{
    broadcast use vstd::seq_lib::group_to_multiset_ensures;

    if bound == 0 {
        lemma_below_none(players);
    } else {
        let lower = (bound - 1) as nat;
        lemma_by_id_below_permutes(players, lower);
        lemma_below_splits(players, lower);
        vstd::seq_lib::lemma_multiset_commutative(
            by_id_below(players, lower),
            with_id(players, lower as u8),
        );
    }
}

/// No id is below 0.
proof fn lemma_below_none(players: Seq<Player>)
    ensures
        below(players, 0) == Seq::<Player>::empty(),
    decreases players.len(),
{
    if players.len() > 0 {
        lemma_below_none(players.drop_last());
    }
}

/// Sorting by id neither loses nor adds a player: the sorted sequence holds
/// every player as often as the given one does, and so is as long.
pub proof fn lemma_by_id_permutes(players: Seq<Player>)
    ensures
        by_id(players).to_multiset() == players.to_multiset(),
        by_id(players).len() == players.len(),
{
    broadcast use vstd::seq_lib::group_to_multiset_ensures;

    lemma_by_id_below_permutes(players, 256);
    lemma_below_all(players);
    by_id(players).to_multiset_ensures();
    players.to_multiset_ensures();
}

/// No player of a sequence in rising order of ids has the id of a later one.
proof fn lemma_with_id_empty_before(players: Seq<Player>, id: u8)
    requires
        forall|k: int| 0 <= k < players.len() ==> (#[trigger] players[k]).id != id,
    ensures
        with_id(players, id) == Seq::<Player>::empty(),
    decreases players.len(),
{
    if players.len() > 0 {
        let front = players.drop_last();
        assert forall|k: int| 0 <= k < front.len() implies (#[trigger] front[k]).id != id by {
            assert(front[k] == players[k]);
        }
        lemma_with_id_empty_before(front, id);
        assert(players.last() == players[players.len() - 1]);
    }
}

/// In a sequence in rising order of ids, the players with an id below
/// `bound + 1` are those with an id below `bound`, followed by the one with
/// the id `bound`, if there is one.
proof fn lemma_below_grows(players: Seq<Player>, bound: nat)
    requires
        ascending(players),
        bound < 256,
    ensures
        below(players, bound + 1) == below(players, bound) + with_id(players, bound as u8),
    decreases players.len(),
{
    let lower = below(players, bound);
    let group = with_id(players, bound as u8);
    let upper = below(players, bound + 1);
    if players.len() == 0 {
        assert(upper =~= lower + group);
    } else {
        let front = players.drop_last();
        let last = players.last();
        assert(last == players[players.len() - 1]);
        assert(ascending(front)) by {
            assert forall|i: int, j: int| 0 <= i < j < front.len() implies (#[trigger] front[i]).id
                < (#[trigger] front[j]).id by {
                assert(front[i] == players[i] && front[j] == players[j]);
            }
        }
        lemma_below_grows(front, bound);
        if last.id < bound {
            assert forall|k: int| 0 <= k < front.len() implies (#[trigger] front[k]).id
                != bound as u8 by {
                assert(front[k] == players[k]);
            }
            lemma_with_id_empty_before(front, bound as u8);
        }
        assert(upper =~= lower + group);
    }
}

/// Sorting players that stand in rising order of ids changes nothing, up to
/// any bound.
proof fn lemma_by_id_below_of_ascending(players: Seq<Player>, bound: nat)
    requires
        ascending(players),
        bound <= 256,
    ensures
        by_id_below(players, bound) == below(players, bound),
    decreases bound,
{
    if bound == 0 {
        lemma_below_none(players);
    } else {
        lemma_by_id_below_of_ascending(players, (bound - 1) as nat);
        lemma_below_grows(players, (bound - 1) as nat);
    }
}

/// Sorting players that stand in rising order of ids changes nothing.
pub proof fn lemma_by_id_of_ascending(players: Seq<Player>)
    requires
        ascending(players),
    ensures
        by_id(players) == players,
{
    lemma_by_id_below_of_ascending(players, 256);
    lemma_below_all(players);
}

/// Players in rising order of ids share no id.
pub proof fn lemma_ascending_is_distinct(players: Seq<Player>)
    requires
        ascending(players),
    ensures
        distinct_ids(players),
{
}

/// Whether no two of `players` share an id.
pub fn has_distinct_ids(players: &Vec<Player>) -> (distinct: bool)
    ensures
        distinct == distinct_ids(players@),
{
    let mut j: usize = 0;
    while j < players.len()
        invariant
            j <= players.len(),
            distinct_ids(players@.take(j as int)),
        decreases players.len() - j,
    {
        let mut i: usize = 0;
        while i < j
            invariant
                i <= j < players.len(),
                forall|k: int| 0 <= k < i ==> (#[trigger] players@[k]).id != players@[j as int].id,
            decreases j - i,
        {
            if players[i].get_id() == players[j].get_id() {
                return false;
            }
            i += 1;
        }
        j += 1;
    }
    assert(players@.take(j as int) == players@);
    true
}

/// A copy of `players` in the order of their ids.
pub fn sort_by_id(players: &Vec<Player>) -> (sorted: Vec<Player>)
    ensures
        sorted@ == by_id(players@),
{
    let mut sorted: Vec<Player> = Vec::with_capacity(players.len());
    let mut bound: u16 = 0;
    while bound < 256
        invariant
            bound <= 256,
            sorted@ == by_id_below(players@, bound as nat),
        decreases 256 - bound,
    {
        let id: u8 = bound as u8;
        let ghost before = sorted@;
        let mut i: usize = 0;
        while i < players.len()
            invariant
                i <= players.len(),
                sorted@ == before + with_id(players@.take(i as int), id),
            decreases players.len() - i,
        {
            assert(players@.take(i + 1).drop_last() == players@.take(i as int));
            if players[i].get_id() == id {
                sorted.push(players[i]);
            }
            i += 1;
        }
        assert(players@.take(i as int) == players@);
        bound += 1;
    }
    sorted
}

} // verus!
