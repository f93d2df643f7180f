//! A game as a mathematical value, and the one function that says what a
//! turn makes of it.

use vstd::prelude::*;
use crate::character::Bullet;
use crate::grid::GridView;
use crate::player::{Action, Player, PlayerInfo};
use crate::roster::ascending;
use crate::turn::{alive_ids, play_slots, settle, TurnState};

verus! {

/// A snapshot as a mathematical value.
pub struct InfoView {
    pub grid: GridView,
    pub players: Seq<PlayerInfo>,
}

/// What is told of `player` on `grid`: everything, but for the position of
/// one that stands in bushes.
pub open spec fn report(grid: GridView, player: Player) -> PlayerInfo {
    if grid.conceals(player.character.pos) {
        PlayerInfo::of(player).hidden()
    } else {
        PlayerInfo::of(player)
    }
}

/// The snapshot of `players` on `grid`: the field, and the report of every
/// actor in the order of the actors.
pub open spec fn snapshot(grid: GridView, players: Seq<Player>) -> InfoView {
    InfoView { grid, players: Seq::new(players.len(), |i: int| report(grid, players[i])) }
}

/// A state as a mathematical value.
pub enum StateView {
    End { winners: Seq<u8> },
    NotStarted { info: InfoView },
    TimeIsOver { winners: Seq<u8> },
    Continue { info: InfoView },
    Empty,
}

impl StateView {
    /// Whether a turn can still be played from this state.
    pub open spec fn playable(self) -> bool {
        self is NotStarted || self is Continue
    }

    /// Whether the game is over for good.
    pub open spec fn terminal(self) -> bool {
        self is End || self is TimeIsOver
    }
}

/// A game as a mathematical value.
pub struct GameView {
    pub state: StateView,
    pub grid: GridView,
    /// The actors, in the order of their ids.
    pub players: Seq<Player>,
    /// How many turns are left before time is over.
    pub ticks: u16,
    /// The projectiles in flight. There are none between turns.
    pub bullets: Seq<Bullet>,
    /// How many actions of each actor one turn takes.
    pub actions_count: usize,
}

impl GameView {
    /// What holds of every game between turns: the field has all its cells;
    /// the actors stand in the rising order of their ids, so no two share
    /// one; no projectile is in flight; and the state says what is the case.
    pub open spec fn wf(self) -> bool {
        &&& self.grid.wf()
        &&& self.grid.size <= u8::MAX
        &&& ascending(self.players)
        &&& self.bullets.len() == 0
        &&& match self.state {
            StateView::Empty => false,
            StateView::NotStarted { info } => info == snapshot(self.grid, self.players),
            StateView::Continue { info } => {
                &&& info == snapshot(self.grid, self.players)
                &&& alive_ids(self.players).len() >= 2
                &&& self.ticks > 0
            },
            StateView::End { winners } => {
                &&& winners == alive_ids(self.players)
                &&& winners.len() <= 1
            },
            StateView::TimeIsOver { winners } => {
                &&& winners == alive_ids(self.players)
                &&& winners.len() >= 2
                &&& self.ticks == 0
            },
        }
    }

    /// A game on which no turn has been played.
    pub open spec fn fresh(
        grid: GridView,
        players: Seq<Player>,
        ticks: u16,
        actions_count: usize,
    ) -> GameView {
        GameView {
            state: StateView::NotStarted { info: snapshot(grid, players) },
            grid,
            players,
            ticks,
            bullets: Seq::empty(),
            actions_count,
        }
    }

    /// The actors after the actions and the flight of one turn.
    pub open spec fn resolved(self, batches: Seq<Seq<Action>>) -> Seq<Player> {
        let start = TurnState { players: self.players, bullets: self.bullets };
        let acted = play_slots(self.grid, start, batches, self.actions_count as nat);
        settle(self.grid, acted).players
    }

    /// The game that stands after the turn has left `players`. With at most
    /// one of them alive the game has ended, and the countdown is not
    /// touched. Else the countdown goes down by one (it stays at zero if it
    /// was there); at zero time is over, and else the game goes on, with a
    /// fresh snapshot.
    pub open spec fn judged(self, players: Seq<Player>) -> GameView {
        let winners = alive_ids(players);
        let bullets = Seq::<Bullet>::empty();
        if winners.len() <= 1 {
            GameView { state: StateView::End { winners }, players, bullets, ..self }
        } else {
            let ticks = if self.ticks > 0 {
                (self.ticks - 1) as u16
            } else {
                0
            };
            if ticks == 0 {
                GameView { state: StateView::TimeIsOver { winners }, players, ticks, bullets, ..self }
            } else {
                GameView {
                    state: StateView::Continue { info: snapshot(self.grid, players) },
                    players,
                    ticks,
                    bullets,
                    ..self
                }
            }
        }
    }

    /// The game after one call for a turn with `batches`, the batch of the
    /// actor at index `i` at index `i`. A game that is over stays as it is.
    pub open spec fn tick(self, batches: Seq<Seq<Action>>) -> GameView {
        if self.state.playable() {
            self.judged(self.resolved(batches))
        } else {
            self
        }
    }
}

/// `batch` made to hold exactly `count` actions: cut after `count`, and
/// filled up with `Action::Nothing`.
pub open spec fn fitted(batch: Seq<Action>, count: nat) -> Seq<Action> {
    Seq::new(
        count,
        |i: int|
            if i < batch.len() {
                batch[i]
            } else {
                Action::Nothing
            },
    )
}

/// The batches that a vector of vectors holds.
pub open spec fn batches_of(actions: Seq<Vec<Action>>) -> Seq<Seq<Action>> {
    Seq::new(actions.len(), |i: int| actions[i]@)
}

} // verus!
