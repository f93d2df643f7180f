//! The session scheduler: who waits for a game, which games run, and when
//! each is due for its next turn.
//!
//! The scheduler never talks to anyone. Its caller accepts connections,
//! sends and receives, and reads the clock; the scheduler is told what
//! happened and says what is to be done next.

use std::collections::VecDeque;
use vstd::prelude::*;
use crate::client::{Client, DynClient, WithHero};
use crate::direction::Direction;
use crate::game::{Game, GameBuilder, GameState};
use crate::grid::GridView;
use crate::player::{Action, Player};
use crate::pos::Pos;
use crate::roster::{ascending, lemma_ascending_is_distinct, lemma_by_id_of_ascending};
use crate::state::{fitted, GameView, StateView};

verus! {

/// What a scheduler is set up with.
#[derive(Debug, Clone, Copy, PartialEq, Eq, Structural)]
pub struct SchedulerConfig {
    /// The side of the field of every game.
    pub map_size: u8,
    /// How many turns a game may last.
    pub time_limit: u16,
    /// How many actions of each player one turn takes.
    pub actions_count: usize,
    /// How many participants make a game.
    pub match_size: usize,
    /// The time from one turn of a game to its next, in milliseconds.
    pub tick_interval: u64,
}

/// The players of a new game of `count` participants: participant `i` gets
/// the standard player with id `i`, standing at `(i + 1, 0)`.
pub open spec fn lineup(count: nat) -> Seq<Player> {
    Seq::new(count, |i: int| Player::standard(i as u8, Pos { x: (i + 1) as u8, y: 0 }))
}

/// `clients` with their actors: the one at index `i` steers the actor with
/// id `i`.
pub open spec fn seated(clients: Seq<Client>) -> Seq<Client> {
    Seq::new(clients.len(), |i: int| clients[i].steering(i as u8))
}

impl SchedulerConfig {
    /// A game has at most 255 participants: each needs an id and a place in
    /// the starting row.
    pub open spec fn wf(self) -> bool {
        self.match_size <= 255
    }

    /// The game that a new session starts with.
    pub open spec fn new_game(self) -> GameView {
        GameView::fresh(
            GridView::empty(self.map_size as nat),
            lineup(self.match_size as nat),
            self.time_limit,
            self.actions_count,
        )
    }

    /// Games of two on a field of side 5, for 1000 turns of 2 actions, a turn
    /// every two seconds.
    pub fn standard() -> (config: SchedulerConfig)
        ensures
            config.wf(),
            config == (SchedulerConfig {
                map_size: 5,
                time_limit: 1000,
                actions_count: 2,
                match_size: 2,
                tick_interval: 2000,
            }),
    {
        SchedulerConfig {
            map_size: 5,
            time_limit: 1000,
            actions_count: 2,
            match_size: 2,
            tick_interval: 2000,
        }
    }
}

/// What a participant is told when its game is over.
#[derive(Debug, Clone, Copy, PartialEq, Eq, Structural)]
pub enum Notice {
    /// The game ended and the participant's actor is the one left alive.
    Win,
    /// The game ended and another actor is the one left alive.
    Lose,
    /// The game ended with no actor left alive.
    Draw,
    /// The time of the game ran out.
    Timeout,
}

/// What the participant steering `hero` is told of a game in `state`:
/// nothing while the game is not over.
pub open spec fn verdict_of(state: StateView, hero: u8) -> Option<Notice> {
    match state {
        StateView::End { winners } => Some(
            if winners.len() == 0 {
                Notice::Draw
            } else if winners.contains(hero) {
                Notice::Win
            } else {
                Notice::Lose
            },
        ),
        StateView::TimeIsOver { winners } => Some(Notice::Timeout),
        _ => None,
    }
}

/// A notice and the participant it is for.
#[derive(Debug, Clone, Copy, PartialEq, Eq, Structural)]
pub struct Farewell {
    pub to: Client,
    pub notice: Notice,
}

/// A session as a mathematical value.
pub struct SessionView {
    pub participants: Seq<Client>,
    pub game: GameView,
    pub deadline: u64,
}

impl SessionView {
    /// The game is well-formed, and the participants steer its actors, one
    /// each and in the order of the actors.
    pub open spec fn wf(self) -> bool {
        &&& self.game.wf()
        &&& self.participants.len() == self.game.players.len()
        &&& forall|i: int|
            0 <= i < self.participants.len() ==> (#[trigger] self.participants[i]).hero_id == Some(
                self.game.players[i].id,
            )
    }

    /// Whether the session's next turn is due at `now`.
    pub open spec fn due(self, now: u64) -> bool {
        self.deadline < now
    }

    /// What the participants are told of the game, in their order.
    pub open spec fn farewells(self) -> Seq<Farewell> {
        Seq::new(
            self.participants.len(),
            |i: int|
                Farewell {
                    to: self.participants[i],
                    notice: verdict_of(self.game.state, self.game.players[i].id).unwrap(),
                },
        )
    }

    /// The session after a turn played at `now` with what was `received`.
    pub open spec fn played(
        self,
        received: Seq<Option<Seq<Action>>>,
        now: u64,
        interval: u64,
    ) -> SessionView {
        SessionView {
            participants: self.participants,
            game: self.game.tick(
                collected(received, self.participants.len(), self.game.actions_count as nat),
            ),
            deadline: (now + interval) as u64,
        }
    }
}

/// The batch that stands for what was received from one participant: what
/// it sent, made to fit, or nothing but `Action::Nothing` if it sent nothing
/// that could be read.
pub open spec fn batch_from(received: Option<Seq<Action>>, count: nat) -> Seq<Action> {
    match received {
        Some(batch) => fitted(batch, count),
        None => fitted(Seq::empty(), count),
    }
}

/// The batches of a turn of `players` participants, from what was received
/// of each. Of one that is not even listed nothing was received.
pub open spec fn collected(received: Seq<Option<Seq<Action>>>, players: nat, count: nat) -> Seq<
    Seq<Action>,
> {
    Seq::new(
        players,
        |i: int|
            if i < received.len() {
                batch_from(received[i], count)
            } else {
                batch_from(None, count)
            },
    )
}

/// What was received, as a mathematical value.
pub open spec fn received_view(received: Seq<Option<Vec<Action>>>) -> Seq<Option<Seq<Action>>> {
    Seq::new(
        received.len(),
        |i: int|
            match received[i] {
                Some(batch) => Some(batch@),
                None => None,
            },
    )
}

/// A running game with its participants and the time its next turn is due.
pub struct Session {
    participants: Vec<Client>,
    game: Game,
    deadline: u64,
}

impl View for Session {
    type V = SessionView;

    closed spec fn view(&self) -> SessionView {
        SessionView { participants: self.participants@, game: self.game@, deadline: self.deadline }
    }
}

impl Session {
    pub open spec fn wf(&self) -> bool {
        self@.wf()
    }

    /// The participants, in the order of the actors they steer.
    pub fn participants(&self) -> (participants: &Vec<Client>)
        ensures
            participants@ == self@.participants,
    {
        &self.participants
    }

    pub fn game(&self) -> (game: &Game)
        ensures
            game@ == self@.game,
    {
        &self.game
    }

    /// The time at which the next turn is due, in milliseconds.
    pub fn deadline(&self) -> (deadline: u64)
        ensures
            deadline == self@.deadline,
    {
        self.deadline
    }

    /// What each participant is told of the game, which must be over.
    fn farewells(&self) -> (farewells: Vec<Farewell>)
        requires
            self.wf(),
            self@.game.state.terminal(),
        ensures
            farewells@ == self@.farewells(),
    {
        let mut farewells: Vec<Farewell> = Vec::with_capacity(self.participants.len());
        let mut i: usize = 0;
        while i < self.participants.len()
            invariant
                self.wf(),
                self@.game.state.terminal(),
                i <= self.participants.len(),
                farewells@.len() == i,
                forall|k: int| 0 <= k < i ==> farewells@[k] == self@.farewells()[k],
            decreases self.participants.len() - i,
        {
            let client = self.participants[i];
            assert(self@.participants[i as int].hero_id == Some(self@.game.players[i as int].id));
            let hero = client.get_hero_id().unwrap();
            let notice = verdict(self.game.state(), hero).unwrap();
            farewells.push(Farewell { to: client, notice });
            i += 1;
        }
        assert(farewells@ =~= self@.farewells());
        farewells
    }
}

/// What the participant steering `hero` is told of a game in `state`:
/// nothing while the game is not over.
pub fn verdict(state: &GameState, hero: u8) -> (notice: Option<Notice>)
    ensures
        notice == verdict_of(state@, hero),
{
    match state {
        GameState::End { winners } => {
            if winners.len() == 0 {
                Some(Notice::Draw)
            } else if holds(winners, hero) {
                Some(Notice::Win)
            } else {
                Some(Notice::Lose)
            }
        },
        GameState::TimeIsOver { .. } => Some(Notice::Timeout),
        _ => None,
    }
}

/// Whether `id` is among `ids`.
fn holds(ids: &Vec<u8>, id: u8) -> (found: bool)
    ensures
        found == ids@.contains(id),
{
    let mut i: usize = 0;
    while i < ids.len()
        invariant
            i <= ids.len(),
            forall|k: int| 0 <= k < i ==> ids@[k] != id,
        decreases ids.len() - i,
    {
        if ids[i] == id {
            return true;
        }
        i += 1;
    }
    false
}

/// The batch that stands for what was received from one participant of
/// `game`: what it sent, made to fit the game's turns, or nothing but
/// `Action::Nothing` if it sent nothing that could be read.
pub fn get_action_from_client(game: &Game, received: Option<Vec<Action>>) -> (actions: Vec<Action>)
    ensures
        actions@ == batch_from(
            match received {
                Some(batch) => Some(batch@),
                None => None,
            },
            game@.actions_count as nat,
        ),
{
    let mut actions = match received {
        Some(batch) => batch,
        None => Vec::new(),
    };
    game.validate_actions(&mut actions);
    actions
}

/// What the caller has to do after a look at the session in front.
pub enum Step {
    /// Nothing: no session is running.
    Idle,
    /// Nothing: the session in front is not due yet and went to the back,
    /// unchanged.
    Waiting,
    /// The game of the session in front is over and the session is gone.
    /// Each participant is to be told its notice, and nothing after it.
    Finished { notices: Vec<Farewell> },
    /// The session in front is due. Its participants are to be shown the
    /// game's snapshot and asked for their actions; the session, with what
    /// was received, then goes to `Scheduler::advance`.
    Collect { session: Session },
}

/// A scheduler as a mathematical value.
pub struct SchedulerView {
    pub config: SchedulerConfig,
    /// The participants that wait for a game, the one that waits longest
    /// first.
    pub waiting: Seq<Client>,
    /// The running sessions, the one that is looked at next first.
    pub sessions: Seq<SessionView>,
}

impl SchedulerView {
    pub open spec fn wf(self) -> bool {
        &&& self.config.wf()
        &&& forall|i: int| 0 <= i < self.sessions.len() ==> (#[trigger] self.sessions[i]).wf()
    }

    /// Whether enough participants wait to make a game.
    pub open spec fn can_match(self) -> bool {
        self.waiting.len() >= self.config.match_size
    }

    /// The scheduler after matchmaking at `now`: where enough participants
    /// wait, those that wait longest leave the queue, as many as make a game,
    /// and start a session that is due one interval after `now`; the one that
    /// waited longest steers actor 0, the next actor 1, and so on.
    pub open spec fn matched(self, now: u64) -> SchedulerView {
        if self.can_match() {
            let size = self.config.match_size as int;
            SchedulerView {
                config: self.config,
                waiting: self.waiting.skip(size),
                sessions: self.sessions.push(
                    SessionView {
                        participants: seated(self.waiting.take(size)),
                        game: self.config.new_game(),
                        deadline: (now + self.config.tick_interval) as u64,
                    },
                ),
            }
        } else {
            self
        }
    }

    /// The scheduler after a look at the session in front at `now`: one that
    /// is due leaves the queue, any other goes to its back.
    pub open spec fn polled(self, now: u64) -> SchedulerView {
        if self.sessions.len() == 0 {
            self
        } else {
            let front = self.sessions[0];
            let rest = self.sessions.skip(1);
            SchedulerView {
                sessions: if front.due(now) {
                    rest
                } else {
                    rest.push(front)
                },
                ..self
            }
        }
    }

    /// The scheduler after `session` has played a turn at `now` with what was
    /// `received`, and has gone to the back of the queue, due again one
    /// interval after `now`.
    pub open spec fn resumed(
        self,
        session: SessionView,
        received: Seq<Option<Seq<Action>>>,
        now: u64,
    ) -> SchedulerView {
        SchedulerView {
            sessions: self.sessions.push(session.played(received, now, self.config.tick_interval)),
            ..self
        }
    }
}

/// The scheduler.
pub struct Scheduler {
    config: SchedulerConfig,
    players_without_games: VecDeque<Client>,
    games: VecDeque<Session>,
}

impl View for Scheduler {
    type V = SchedulerView;

    closed spec fn view(&self) -> SchedulerView {
        SchedulerView {
            config: self.config,
            waiting: self.players_without_games@,
            sessions: Seq::new(self.games@.len(), |i: int| self.games@[i]@),
        }
    }
}

impl Scheduler {
    pub open spec fn wf(&self) -> bool {
        self@.wf()
    }

    /// A scheduler with nobody waiting and no game running, if `config`
    /// allows for one.
    pub fn new(config: SchedulerConfig) -> (scheduler: Option<Scheduler>)
        ensures
            scheduler is Some <==> config.wf(),
            scheduler matches Some(s) ==> s.wf() && s@ == (SchedulerView {
                config,
                waiting: Seq::empty(),
                sessions: Seq::empty(),
            }),
    {
        if config.match_size <= 255 {
            let scheduler = Scheduler {
                config,
                players_without_games: VecDeque::new(),
                games: VecDeque::new(),
            };
            assert(scheduler@.sessions =~= Seq::<SessionView>::empty());
            Some(scheduler)
        } else {
            None
        }
    }

    pub fn config(&self) -> (config: SchedulerConfig)
        ensures
            config == self@.config,
    {
        self.config
    }

    /// How many participants wait for a game.
    pub fn waiting_count(&self) -> (count: usize)
        ensures
            count == self@.waiting.len(),
    {
        self.players_without_games.len()
    }

    /// How many sessions are running.
    pub fn sessions_count(&self) -> (count: usize)
        ensures
            count == self@.sessions.len(),
    {
        self.games.len()
    }

    /// Takes in a participant that has been greeted on `connection`: it
    /// waits behind all that wait already.
    pub fn new_connections_handler(&mut self, connection: u64)
        requires
            old(self).wf(),
        ensures
            final(self).wf(),
            final(self)@ == (SchedulerView {
                waiting: old(self)@.waiting.push(Client { connection, hero_id: None }),
                ..old(self)@
            }),
    {
        self.players_without_games.push_back(Client::new(connection));
        assert(self@.sessions =~= old(self)@.sessions);
    }

    /// Makes the game of a new session and gives each of `clients` its actor.
    fn create_new_game(&self, clients: &mut Vec<Client>) -> (game: Game)
        requires
            self.config.wf(),
            old(clients)@.len() == self.config.match_size,
        ensures
            game.wf(),
            game@ == self.config.new_game(),
            final(clients)@ == seated(old(clients)@),
    {
        let count = self.config.match_size;
        let mut players: Vec<Player> = Vec::with_capacity(count);
        let mut pos: Pos = Pos::new(0, 0);
        let mut id: u8 = 0;
        let mut ind: usize = 0;
        while ind < count
            invariant
                ind <= count <= 255,
                clients@.len() == count,
                old(clients)@.len() == count,
                id == ind,
                pos == (Pos { x: ind as u8, y: 0 }),
                players@ == lineup(ind as nat),
                forall|k: int| 0 <= k < ind ==> clients@[k] == old(clients)@[k].steering(k as u8),
                forall|k: int| ind <= k < count ==> clients@[k] == old(clients)@[k],
            decreases count - ind,
        {
            pos = pos.shift(Direction::Right).unwrap();
            players.push(Player::new_default_player(id, pos));
            clients[ind].add_hero_id(id);
            assert(players@ =~= lineup((ind + 1) as nat));
            id += 1;
            ind += 1;
        }
        proof {
            assert(clients@ =~= seated(old(clients)@));
            assert(ascending(players@));
            lemma_ascending_is_distinct(players@);
            lemma_by_id_of_ascending(players@);
        }
        GameBuilder::default().add_actions_count(self.config.actions_count).add_map_size(
            self.config.map_size,
        ).add_time_limit(self.config.time_limit).add_players(players).build()
    }

    /// Matchmaking at `now`. Where enough participants wait to make a game,
    /// those that wait longest are taken from the queue and start a session,
    /// which is due one interval after `now`. Says whether a session started.
    pub fn game_selection(&mut self, now: u64) -> (started: bool)
        requires
            old(self).wf(),
            now + old(self)@.config.tick_interval <= u64::MAX,
        ensures
            final(self).wf(),
            started == old(self)@.can_match(),
            final(self)@ == old(self)@.matched(now),
    {
        let count = self.config.match_size;
        if self.players_without_games.len() >= count {
            let mut clients: Vec<Client> = Vec::with_capacity(count);
            let mut taken: usize = 0;
            while taken < count
                invariant
                    taken <= count,
                    count <= old(self)@.waiting.len(),
                    self.config == old(self).config,
                    self.games == old(self).games,
                    clients@ == old(self)@.waiting.take(taken as int),
                    self.players_without_games@ == old(self)@.waiting.skip(taken as int),
                decreases count - taken,
            {
                let client = self.players_without_games.pop_front().unwrap();
                clients.push(client);
                taken += 1;
                assert(clients@ =~= old(self)@.waiting.take(taken as int));
                assert(self.players_without_games@ =~= old(self)@.waiting.skip(taken as int));
            }
            let game = self.create_new_game(&mut clients);
            let session = Session {
                participants: clients,
                game,
                deadline: now + self.config.tick_interval,
            };
            proof {
                lemma_by_id_of_ascending(lineup(count as nat));
            }
            assert(session.wf());
            self.games.push_back(session);
            assert(self@.sessions =~= old(self)@.matched(now).sessions);
            true
        } else {
            false
        }
    }

    /// A look at the session in front at `now`. One that is not due goes to
    /// the back of the queue as it is. One that is due leaves the queue: if
    /// its game is over, for good, with a notice for each participant; else
    /// into the caller's hands, to come back through `advance`.
    pub fn games_update(&mut self, now: u64) -> (step: Step)
        requires
            old(self).wf(),
        ensures
            final(self).wf(),
            final(self)@ == old(self)@.polled(now),
            match step {
                Step::Idle => old(self)@.sessions.len() == 0,
                Step::Waiting => {
                    &&& old(self)@.sessions.len() > 0
                    &&& !old(self)@.sessions[0].due(now)
                },
                Step::Finished { notices } => {
                    &&& old(self)@.sessions.len() > 0
                    &&& old(self)@.sessions[0].due(now)
                    &&& old(self)@.sessions[0].game.state.terminal()
                    &&& notices@ == old(self)@.sessions[0].farewells()
                },
                Step::Collect { session } => {
                    &&& old(self)@.sessions.len() > 0
                    &&& old(self)@.sessions[0].due(now)
                    &&& old(self)@.sessions[0].game.state.playable()
                    &&& session@ == old(self)@.sessions[0]
                    &&& session.wf()
                },
            },
    {
        match self.games.pop_front() {
            None => Step::Idle,
            Some(session) => {
                assert(session@ == old(self)@.sessions[0]);
                assert(old(self)@.sessions[0].wf());
                if session.deadline < now {
                    assert(self@.sessions =~= old(self)@.sessions.skip(1));
                    if session.game.state().playable() {
                        Step::Collect { session }
                    } else {
                        Step::Finished { notices: session.farewells() }
                    }
                } else {
                    self.games.push_back(session);
                    assert(self@.sessions =~= old(self)@.sessions.skip(1).push(
                        old(self)@.sessions[0],
                    ));
                    Step::Waiting
                }
            },
        }
    }

    /// One turn of `session`, played at `now` with what was `received`: at
    /// index `i` what the participant at index `i` sent, or `None` if it sent
    /// nothing that could be read. The session then goes to the back of the
    /// queue and is due again one interval after `now`.
    pub fn advance(&mut self, session: Session, received: Vec<Option<Vec<Action>>>, now: u64)
        requires
            old(self).wf(),
            session.wf(),
            now + old(self)@.config.tick_interval <= u64::MAX,
        ensures
            final(self).wf(),
            final(self)@ == old(self)@.resumed(session@, received_view(received@), now),
    {
        let ghost given = session@;
        let mut session = session;
        let mut received = received;
        let ghost sent = received_view(received@);
        let count = session.participants.len();
        let mut actions: Vec<Vec<Action>> = Vec::with_capacity(count);
        let mut i: usize = 0;
        while i < count
            invariant
                i <= count,
                count == session@.participants.len(),
                session@ == given,
                received@.len() == sent.len(),
                forall|k: int| i <= k < received@.len() ==> received_view(received@)[k] == sent[k],
                actions@.len() == i,
                forall|k: int|
                    0 <= k < i ==> (#[trigger] actions@[k])@ == collected(
                        sent,
                        count as nat,
                        session@.game.actions_count as nat,
                    )[k],
            decreases count - i,
        {
            let got = if i < received.len() {
                assert(received_view(received@)[i as int] == sent[i as int]);
                received[i].take()
            } else {
                None
            };
            let batch = get_action_from_client(&session.game, got);
            actions.push(batch);
            i += 1;
        }
        assert(crate::state::batches_of(actions@) =~= collected(
            sent,
            count as nat,
            session@.game.actions_count as nat,
        ));
        session.game.update(actions);
        session.deadline = now + self.config.tick_interval;
        proof {
            crate::laws::lemma_tick_keeps_the_cast(
                given.game,
                collected(sent, count as nat, given.game.actions_count as nat),
            );
        }
        assert(session.wf());
        self.games.push_back(session);
        assert(self@.sessions =~= old(self)@.resumed(given, sent, now).sessions);
    }
}

} // verus!
