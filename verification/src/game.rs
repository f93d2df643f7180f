//! The engine: a field, its actors, a countdown, and the state machine that
//! one call of `update` advances by exactly one turn.

use vstd::prelude::*;
use crate::character::Bullet;
use crate::grid::{CanMove, Grid, GridView};
use crate::player::{Action, Player, PlayerInfo};
use crate::pos::Pos;
use crate::laws::lemma_tick_wf;
use crate::roster::{by_id, distinct_ids, lemma_by_id_ascending, sort_by_id};
use crate::state::{batches_of, fitted, report, snapshot, GameView, InfoView, StateView};
use crate::traits::{Attack, Movable, WithHealth, WithId};
use crate::turn::{
    act, alive_ids, fly, fly_round, fly_rounds, longest_range, occupant, occupant_from, play_slot,
    play_slots, settle, stride, walk, TurnState,
};

verus! {

/// What the participants of a game are shown of it before each turn.
pub struct GameInfo {
    pub map: Grid,
    pub players: Vec<PlayerInfo>,
}

impl View for GameInfo {
    type V = InfoView;

    open spec fn view(&self) -> InfoView {
        InfoView { grid: self.map@, players: self.players@ }
    }
}

impl GameInfo {
    fn new(game: &Game) -> (info: GameInfo)
        requires
            game.map.wf(),
        ensures
            info@ == snapshot(game.map@, game.players@),
            info.map.wf(),
    {
        let mut players: Vec<PlayerInfo> = Vec::new();
        let mut i: usize = 0;
        while i < game.players.len()
            invariant
                game.map.wf(),
                i <= game.players.len(),
                players@.len() == i,
                forall|j: int| 0 <= j < i ==> players@[j] == report(game.map@, game.players@[j]),
            decreases game.players.len() - i,
        {
            let pl = &game.players[i];
            let mut info = PlayerInfo::new(pl);
            if game.map.conceals(pl.get_position()) {
                info.without_pos();
            }
            players.push(info);
            i += 1;
        }
        let info = GameInfo { map: game.map.clone(), players };
        assert(info@.players =~= snapshot(game.map@, game.players@).players);
        info
    }

    /// The field.
    pub fn map(&self) -> (map: &Grid)
        ensures
            map@ == self@.grid,
    {
        &self.map
    }

    /// The reports of the actors, in the order of their ids.
    pub fn players(&self) -> (players: &Vec<PlayerInfo>)
        ensures
            players@ == self@.players,
    {
        &self.players
    }
}

/// Where a game stands.
pub enum GameState {
    /// At most one actor is left alive. `winners` holds the ids of those
    /// alive: one, or none where the last ones fell together.
    End { winners: Vec<u8> },
    /// No turn has been played yet.
    NotStarted { info: GameInfo },
    /// The countdown ran out with several actors alive, whose ids `winners`
    /// holds.
    TimeIsOver { winners: Vec<u8> },
    /// The game goes on.
    Continue { info: GameInfo },
    /// The state of a game that is not made yet.
    Empty,
}

impl View for GameState {
    type V = StateView;

    open spec fn view(&self) -> StateView {
        match self {
            GameState::End { winners } => StateView::End { winners: winners@ },
            GameState::NotStarted { info } => StateView::NotStarted { info: info@ },
            GameState::TimeIsOver { winners } => StateView::TimeIsOver { winners: winners@ },
            GameState::Continue { info } => StateView::Continue { info: info@ },
            GameState::Empty => StateView::Empty,
        }
    }
}

impl GameState {
    /// Whether the field of the snapshot that the state carries, if it
    /// carries one, has all its cells.
    pub open spec fn printable(&self) -> bool {
        match self {
            GameState::NotStarted { info } | GameState::Continue { info } => info.map.wf(),
            _ => true,
        }
    }

    /// Whether a turn can still be played from this state.
    pub fn playable(&self) -> (yes: bool)
        ensures
            yes == self@.playable(),
    {
        match self {
            GameState::NotStarted { .. } | GameState::Continue { .. } => true,
            _ => false,
        }
    }
}

/// A game.
pub struct Game {
    state: GameState,
    map: Grid,
    players: Vec<Player>,
    time_limit: u16,
    bullets: Vec<Bullet>,
    actions_count: usize,
}

impl View for Game {
    type V = GameView;

    closed spec fn view(&self) -> GameView {
        GameView {
            state: self.state@,
            grid: self.map@,
            players: self.players@,
            ticks: self.time_limit,
            bullets: self.bullets@,
            actions_count: self.actions_count,
        }
    }
}

impl Game {
    /// What holds of a game between turns.
    pub open spec fn wf(&self) -> bool {
        self@.wf()
    }

    /// A game on `map` with `players`, which must not share ids. The players
    /// are put in the order of their ids. `time_limit` turns can be played at
    /// most, and each takes `actions_count` actions of every player.
    pub fn new(map: Grid, players: Vec<Player>, time_limit: u16, actions_count: usize) -> (game:
        Game)
        requires
            map.wf(),
            distinct_ids(players@),
        ensures
            game.wf(),
            game@ == GameView::fresh(map@, by_id(players@), time_limit, actions_count),
    {
        proof {
            lemma_by_id_ascending(players@);
        }
        let players = sort_by_id(&players);
        let mut game = Game {
            state: GameState::Empty,
            map,
            players,
            time_limit,
            bullets: Vec::new(),
            actions_count,
        };
        let info = GameInfo::new(&game);
        game.state = GameState::NotStarted { info };
        game
    }

    pub fn state(&self) -> (state: &GameState)
        ensures
            state@ == self@.state,
    {
        &self.state
    }

    /// How many actions of each player one turn takes.
    pub fn get_actions_count(&self) -> (count: usize)
        ensures
            count == self@.actions_count,
    {
        self.actions_count
    }

    /// Makes `actions` a batch of exactly as many actions as a turn takes:
    /// what is beyond is cut off, what is missing is filled up with
    /// `Action::Nothing`. A batch of the right length is left as it is.
    pub fn validate_actions(&self, actions: &mut Vec<Action>)
        ensures
            final(actions)@ == fitted(old(actions)@, self@.actions_count as nat),
    {
        let count = self.actions_count;
        if actions.len() > count {
            actions.truncate(count);
        }
        while actions.len() < count
            invariant
                actions@.len() <= count,
                old(actions)@.len() >= count ==> actions@ == old(actions)@.take(count as int),
                old(actions)@.len() < count ==> {
                    &&& actions@.len() >= old(actions)@.len()
                    &&& actions@.take(old(actions)@.len() as int) == old(actions)@
                    &&& forall|i: int|
                        old(actions)@.len() <= i < actions@.len() ==> actions@[i] == Action::Nothing
                },
            decreases count - actions.len(),
        {
            actions.push(Action::Nothing);
        }
        assert(actions@ =~= fitted(old(actions)@, count as nat)) by {
            assert forall|i: int| 0 <= i < count implies actions@[i] == fitted(
                old(actions)@,
                count as nat,
            )[i] by {
                if i < old(actions)@.len() && old(actions)@.len() < count {
                    assert(actions@.take(old(actions)@.len() as int)[i] == actions@[i]);
                }
            }
        }
    }

    /// The index of the player with id `id`.
    pub fn get_player_by_id(&self, id: u8) -> (found: Option<usize>)
        ensures
            match found {
                Some(i) => {
                    &&& i < self@.players.len()
                    &&& self@.players[i as int].id == id
                    &&& forall|j: int| 0 <= j < i ==> self@.players[j].id != id
                },
                None => forall|j: int| 0 <= j < self@.players.len() ==> self@.players[j].id != id,
            },
    {
        let mut ind: usize = 0;
        while ind < self.players.len()
            invariant
                ind <= self.players.len(),
                forall|j: int| 0 <= j < ind ==> self.players@[j].id != id,
            decreases self.players.len() - ind,
        {
            if self.players[ind].get_id() == id {
                return Some(ind);
            }
            ind += 1;
        }
        None
    }

    /// Whether the game has a player with id `id`.
    pub open spec fn has_player(&self, id: u8) -> bool {
        exists|j: int| 0 <= j < self@.players.len() && self@.players[j].id == id
    }

    /// What is told of the player with id `id`, which the game must have. The
    /// position is told wherever the player stands.
    pub fn player_state(&self, id: u8) -> (info: PlayerInfo)
        requires
            self.has_player(id),
        ensures
            exists|j: int|
                0 <= j < self@.players.len() && self@.players[j].id == id && info == PlayerInfo::of(
                    self@.players[j],
                ) && forall|k: int| 0 <= k < j ==> self@.players[k].id != id,
    {
        let ind = self.get_player_by_id(id).unwrap();
        PlayerInfo::new(&self.players[ind])
    }

    /// The ids of the players that are alive, in their order.
    fn alives(&self) -> (alives: Vec<u8>)
        ensures
            alives@ == alive_ids(self.players@),
    {
        let mut alives: Vec<u8> = Vec::new();
        let mut i: usize = 0;
        while i < self.players.len()
            invariant
                i <= self.players.len(),
                alives@ == alive_ids(self.players@.take(i as int)),
            decreases self.players.len() - i,
        {
            assert(self.players@.take(i + 1).drop_last() == self.players@.take(i as int));
            if self.players[i].alive() {
                alives.push(self.players[i].get_id());
            }
            i += 1;
        }
        assert(self.players@.take(i as int) == self.players@);
        alives
    }

    /// Ends the game if at most one player is left alive, and says whether
    /// it did.
    fn have_winner(&mut self) -> (ended: bool)
        ensures
            ended == (alive_ids(old(self).players@).len() <= 1),
            ended ==> final(self).state@ == (StateView::End {
                winners: alive_ids(old(self).players@),
            }),
            !ended ==> final(self).state == old(self).state,
            final(self).map == old(self).map,
            final(self).players == old(self).players,
            final(self).time_limit == old(self).time_limit,
            final(self).bullets == old(self).bullets,
            final(self).actions_count == old(self).actions_count,
    {
        let alives = self.alives();
        if alives.len() <= 1 {
            self.state = GameState::End { winners: alives };
            true
        } else {
            false
        }
    }

    /// Counts one turn off the time that is left. At zero nothing is left to
    /// count off.
    fn time_update(&mut self)
        ensures
            final(self).time_limit == if old(self).time_limit > 0 {
                old(self).time_limit - 1
            } else {
                0
            },
            final(self).state == old(self).state,
            final(self).map == old(self).map,
            final(self).players == old(self).players,
            final(self).bullets == old(self).bullets,
            final(self).actions_count == old(self).actions_count,
    {
        if self.time_limit > 0 {
            self.time_limit -= 1;
        }
    }

    /// Ends the game if no time is left, and says whether it did.
    fn check_time_limit_over(&mut self) -> (over: bool)
        ensures
            over == (old(self).time_limit == 0),
            over ==> final(self).state@ == (StateView::TimeIsOver {
                winners: alive_ids(old(self).players@),
            }),
            !over ==> final(self).state == old(self).state,
            final(self).map == old(self).map,
            final(self).players == old(self).players,
            final(self).time_limit == old(self).time_limit,
            final(self).bullets == old(self).bullets,
            final(self).actions_count == old(self).actions_count,
    {
        if self.time_limit == 0 {
            self.state = GameState::TimeIsOver { winners: self.alives() };
            true
        } else {
            false
        }
    }

    /// Settles where the game stands once a turn has been resolved: ended
    /// before anything else, then out of time, and else going on.
    fn game_state_update(&mut self)
        requires
            old(self).map.wf(),
            old(self).bullets@.len() == 0,
        ensures
            final(self)@ == old(self)@.judged(old(self).players@),
    {
        assert(self.bullets@ =~= Seq::<Bullet>::empty());
        if self.have_winner() {
            return ;
        }
        self.time_update();
        if self.check_time_limit_over() {
            return ;
        }
        let info = GameInfo::new(self);
        self.state = GameState::Continue { info };
    }

    /// One turn. Every player's action of the first slot is carried out, in
    /// the order of the players' ids, before any action of the second slot,
    /// and so on for as many slots as a turn takes; then the projectiles fly;
    /// then the state is settled. `actions` holds the batch of the player at
    /// index `i` at index `i`; an action that is not there counts as
    /// `Action::Nothing`, and actions beyond the slots of a turn are not
    /// looked at. A game that is over is left as it is.
    pub fn update(&mut self, actions: Vec<Vec<Action>>)
        requires
            old(self).wf(),
        ensures
            final(self).wf(),
            final(self)@ == old(self)@.tick(batches_of(actions@)),
    {
        proof {
            lemma_tick_wf(old(self)@, batches_of(actions@));
        }
        if !self.state.playable() {
            return ;
        }
        let ghost batches = batches_of(actions@);
        let ghost start = self.turn();
        let mut action_ind: usize = 0;
        while action_ind < self.actions_count
            invariant
                action_ind <= self.actions_count,
                self.map.wf(),
                self.same_frame(old(self)),
                batches == batches_of(actions@),
                start == old(self).turn(),
                self.turn() == play_slots(self.map@, start, batches, action_ind as nat),
            decreases self.actions_count - action_ind,
        {
            let ghost before = self.turn();
            let mut pl_ind: usize = 0;
            while pl_ind < self.players.len()
                invariant
                    pl_ind <= self.players.len(),
                    self.players.len() == before.players.len(),
                    self.map.wf(),
                    self.same_frame(old(self)),
                    batches == batches_of(actions@),
                    self.turn() == play_slot(
                        self.map@,
                        before,
                        batches,
                        action_ind as int,
                        pl_ind as nat,
                    ),
                decreases self.players.len() - pl_ind,
            {
                let action = if pl_ind < actions.len() && action_ind < actions[pl_ind].len() {
                    actions[pl_ind][action_ind]
                } else {
                    Action::Nothing
                };
                self.execute_action(pl_ind, action);
                pl_ind += 1;
            }
            action_ind += 1;
        }
        self.bullet_update();
        self.game_state_update();
    }

    /// What a turn changes of the game.
    spec fn turn(&self) -> TurnState {
        TurnState { players: self.players@, bullets: self.bullets@ }
    }

    /// Whether `self` and `other` agree in all that no action changes.
    spec fn same_frame(&self, other: &Game) -> bool {
        &&& self.state == other.state
        &&& self.map == other.map
        &&& self.time_limit == other.time_limit
        &&& self.actions_count == other.actions_count
    }

    /// The index of the first actor that stands on `pos`.
    fn player_at(&self, pos: Pos) -> (found: Option<usize>)
        ensures
            match found {
                Some(i) => occupant(self.players@, pos) == Some(i as int) && i < self.players.len(),
                None => occupant(self.players@, pos) is None,
            },
    {
        let mut i: usize = 0;
        while i < self.players.len()
            invariant
                i <= self.players.len(),
                occupant(self.players@, pos) == occupant_from(self.players@, pos, i as int),
            decreases self.players.len() - i,
        {
            if self.players[i].get_position() == pos {
                return Some(i);
            }
            i += 1;
        }
        None
    }

    /// What actor `player_ind` does in one slot.
    fn execute_action(&mut self, player_ind: usize, action: Action)
        requires
            old(self).map.wf(),
            player_ind < old(self).players.len(),
        ensures
            final(self).turn() == act(old(self).map@, old(self).turn(), player_ind as int, action),
            final(self).same_frame(old(self)),
            final(self).players.len() == old(self).players.len(),
    {
        match action {
            Action::Attack { direction } => {
                let shot = self.players[player_ind].attack(direction);
                if let Some(bullet) = shot {
                    self.bullets.push(bullet);
                }
            },
            Action::Move { direction, range } => {
                let speed = self.players[player_ind].get_speed();
                let steps = if speed < range {
                    speed
                } else {
                    range
                };
                let mut taken: u8 = 0;
                while taken < steps
                    invariant
                        taken <= steps,
                        action == (Action::Move { direction, range }),
                        steps == stride(old(self).players@[player_ind as int], range),
                        self.map.wf(),
                        self.same_frame(old(self)),
                        self.bullets == old(self).bullets,
                        self.players.len() == old(self).players.len(),
                        player_ind < self.players.len(),
                        walk(
                            self.map@,
                            old(self).players@,
                            player_ind as int,
                            direction,
                            steps as nat,
                        ) == walk(
                            self.map@,
                            self.players@,
                            player_ind as int,
                            direction,
                            (steps - taken) as nat,
                        ),
                    decreases steps - taken,
                {
                    let pos = self.players[player_ind].get_position();
                    match self.map.can_move(pos, direction) {
                        CanMove::Yes => {
                            let ahead = pos.shift(direction).unwrap();
                            if self.player_at(ahead).is_some() {
                                return ;
                            }
                            self.players[player_ind].shift(direction);
                        },
                        CanMove::No(_) => {
                            return ;
                        },
                    }
                    taken += 1;
                }
            },
            Action::Reload => {
                self.players[player_ind].reloading();
            },
            Action::Nothing => {},
        }
    }

    /// The longest remaining range among the pending projectiles.
    fn longest_range(&self) -> (longest: u8)
        ensures
            longest == longest_range(self.bullets@),
    {
        let mut longest: u8 = 0;
        let mut i: usize = 0;
        while i < self.bullets.len()
            invariant
                i <= self.bullets.len(),
                longest == longest_range(self.bullets@.take(i as int)),
            decreases self.bullets.len() - i,
        {
            assert(self.bullets@.take(i + 1).drop_last() == self.bullets@.take(i as int));
            if self.bullets[i].range > longest {
                longest = self.bullets[i].range;
            }
            i += 1;
        }
        assert(self.bullets@.take(i as int) == self.bullets@);
        longest
    }

    /// One go of projectile `which`.
    fn advance_bullet(&mut self, which: usize)
        requires
            old(self).map.wf(),
            which < old(self).bullets.len(),
        ensures
            final(self).turn() == fly(old(self).map@, old(self).turn(), which as int),
            final(self).same_frame(old(self)),
    {
        if self.bullets[which].can_move() {
            let bullet_pos = self.bullets[which].get_position();
            match self.player_at(bullet_pos) {
                Some(hit) => {
                    let damage = self.bullets[which].use_up();
                    self.players[hit].get_damage(damage);
                },
                None => {
                    let bullet_direction = self.bullets[which].get_direction();
                    match self.map.can_move(bullet_pos, bullet_direction) {
                        CanMove::Yes => {
                            self.bullets[which].shift(bullet_direction);
                        },
                        CanMove::No(_) => {},
                    }
                },
            }
        }
    }

    /// The flight of the pending projectiles, after which none is left.
    fn bullet_update(&mut self)
        requires
            old(self).map.wf(),
        ensures
            final(self).players@ == settle(old(self).map@, old(self).turn()).players,
            final(self).bullets@ == Seq::<Bullet>::empty(),
            final(self).same_frame(old(self)),
    {
        let count = self.longest_range();
        let mut round: u8 = 0;
        while round < count
            invariant
                round <= count,
                self.map.wf(),
                self.same_frame(old(self)),
                self.turn() == fly_rounds(self.map@, old(self).turn(), round as nat),
            decreases count - round,
        {
            let ghost before = self.turn();
            let mut which: usize = 0;
            while which < self.bullets.len()
                invariant
                    which <= self.bullets.len(),
                    self.bullets.len() == before.bullets.len(),
                    self.map.wf(),
                    self.same_frame(old(self)),
                    self.turn() == fly_round(self.map@, before, which as nat),
                decreases self.bullets.len() - which,
            {
                self.advance_bullet(which);
                which += 1;
            }
            round += 1;
        }
        self.bullets.clear();
    }
}

/// What a session needs of a game.
pub trait LikeGame {
    /// The game as a mathematical value.
    spec fn model(&self) -> GameView;

    /// One turn.
    fn update(&mut self, actions: Vec<Vec<Action>>)
        requires
            old(self).model().wf(),
        ensures
            final(self).model().wf(),
            final(self).model() == old(self).model().tick(batches_of(actions@)),
    ;

    /// Makes `actions` a batch of exactly as many actions as a turn takes.
    fn validate_actions(&self, actions: &mut Vec<Action>)
        ensures
            final(actions)@ == fitted(old(actions)@, self.model().actions_count as nat),
    ;

    fn state(&self) -> (state: &GameState)
        ensures
            state@ == self.model().state,
    ;

    fn get_actions_count(&self) -> (count: usize)
        ensures
            count == self.model().actions_count,
    ;
}

impl LikeGame for Game {
    open spec fn model(&self) -> GameView {
        self@
    }

    fn update(&mut self, actions: Vec<Vec<Action>>)
        ensures
            final(self).wf(),
            final(self)@ == old(self)@.tick(batches_of(actions@)),
    {
        Game::update(self, actions)
    }

    fn validate_actions(&self, actions: &mut Vec<Action>)
        ensures
            final(actions)@ == fitted(old(actions)@, self@.actions_count as nat),
    {
        Game::validate_actions(self, actions)
    }

    fn state(&self) -> (state: &GameState)
        ensures
            state@ == self@.state,
    {
        Game::state(self)
    }

    fn get_actions_count(&self) -> (count: usize)
        ensures
            count == self@.actions_count,
    {
        Game::get_actions_count(self)
    }
}

/// What a builder has been told so far.
pub struct BuilderView {
    pub map_size: Option<u8>,
    pub players: Seq<Player>,
    pub time_limit: Option<u16>,
    pub actions_count: Option<usize>,
}

impl BuilderView {
    /// The game that is built from what the builder has been told: on an
    /// empty field of side 5, for 1000 turns of 2 actions, unless told
    /// otherwise.
    pub open spec fn built(self) -> GameView {
        GameView::fresh(
            GridView::empty(
                match self.map_size {
                    Some(size) => size as nat,
                    None => 5,
                },
            ),
            by_id(self.players),
            match self.time_limit {
                Some(limit) => limit,
                None => 1000,
            },
            match self.actions_count {
                Some(count) => count,
                None => 2,
            },
        )
    }
}

/// Collects what a game is made from, piece by piece.
pub struct GameBuilder {
    map_size: Option<u8>,
    players: Vec<Player>,
    time_limit: Option<u16>,
    actions_count: Option<usize>,
}

impl View for GameBuilder {
    type V = BuilderView;

    closed spec fn view(&self) -> BuilderView {
        BuilderView {
            map_size: self.map_size,
            players: self.players@,
            time_limit: self.time_limit,
            actions_count: self.actions_count,
        }
    }
}

impl Default for GameBuilder {
    fn default() -> (builder: GameBuilder)
        ensures
            builder@ == (BuilderView {
                map_size: None,
                players: Seq::empty(),
                time_limit: None,
                actions_count: None,
            }),
    {
        GameBuilder { map_size: None, players: Vec::new(), time_limit: None, actions_count: None }
    }
}

impl GameBuilder {
    /// Takes `players` in place of any told before.
    pub fn add_players(self, players: Vec<Player>) -> (builder: GameBuilder)
        ensures
            builder@ == (BuilderView { players: players@, ..self@ }),
    {
        let mut builder = self;
        builder.players = players;
        builder
    }

    pub fn add_time_limit(self, limit: u16) -> (builder: GameBuilder)
        ensures
            builder@ == (BuilderView { time_limit: Some(limit), ..self@ }),
    {
        let mut builder = self;
        builder.time_limit = Some(limit);
        builder
    }

    pub fn add_actions_count(self, actions: usize) -> (builder: GameBuilder)
        ensures
            builder@ == (BuilderView { actions_count: Some(actions), ..self@ }),
    {
        let mut builder = self;
        builder.actions_count = Some(actions);
        builder
    }

    pub fn add_map_size(self, map_size: u8) -> (builder: GameBuilder)
        ensures
            builder@ == (BuilderView { map_size: Some(map_size), ..self@ }),
    {
        let mut builder = self;
        builder.map_size = Some(map_size);
        builder
    }

    /// The game. The players told must not share ids.
    pub fn build(self) -> (game: Game)
        requires
            distinct_ids(self@.players),
        ensures
            game.wf(),
            game@ == self@.built(),
    {
        let map_size = match self.map_size {
            Some(size) => size,
            None => 5,
        };
        let time_limit = match self.time_limit {
            Some(limit) => limit,
            None => 1000,
        };
        let actions_count = match self.actions_count {
            Some(count) => count,
            None => 2,
        };
        Game::new(Grid::new_empty(map_size), self.players, time_limit, actions_count)
    }
}

} // verus!
