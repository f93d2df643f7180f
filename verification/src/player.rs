//! Players, what they may do in a turn, and what others are told of them.

use vstd::prelude::*;
use crate::character::{Bullet, Character, CharacterInfo, Gun, Health};
use crate::direction::Direction;
use crate::pos::Pos;
use crate::traits::{Attack, Movable, WithCharacter, WithHealth, WithId};

verus! {

/// Everything the engine asks of an actor.
pub trait DynPlayer: WithHealth + WithId + Attack + Movable + WithCharacter {

}

/// Who steers an actor. The engine treats both kinds alike.
#[derive(Debug, Clone, Copy, PartialEq, Eq, Structural)]
pub enum PlayerType {
    Bot,
    Player,
}

/// An actor of a game: a number that tells it apart, and a character.
#[derive(Debug, Clone, Copy, PartialEq, Eq, Structural)]
pub struct Player {
    pub id: u8,
    pub typ: PlayerType,
    pub character: Character,
}

/// One thing a player does in one slot of a turn.
#[derive(Debug, Clone, Copy, PartialEq, Eq, Structural)]
pub enum Action {
    /// Up to `range` steps in `direction`, and no more than the character's
    /// speed.
    Move { direction: Direction, range: u8 },
    /// One attempt to fire in `direction`.
    Attack { direction: Direction },
    /// One count of cooling down the weapon.
    Reload,
    Nothing,
}

impl Player {
    /// The player with its character standing at `pos`.
    pub open spec fn at(self, pos: Pos) -> Player {
        Player { character: Character { pos, ..self.character }, ..self }
    }

    /// The player with `health` in place of its own.
    pub open spec fn with_health(self, health: Health) -> Player {
        Player { character: Character { health, ..self.character }, ..self }
    }

    /// The player with `gun` in place of its own.
    pub open spec fn with_gun(self, gun: Gun) -> Player {
        Player { character: Character { gun, ..self.character }, ..self }
    }

    /// The player after one push in `direction`: one cell on, or where it was
    /// if that cell cannot be written as a position.
    pub open spec fn pushed(self, direction: Direction) -> Player {
        Player { character: self.character.pushed(direction), ..self }
    }

    /// The player after taking `damage`.
    pub open spec fn damaged(self, damage: u8) -> Player {
        self.with_health(self.character.health.damaged(damage))
    }

    /// The player after an attempt to fire.
    pub open spec fn fired(self) -> Player {
        self.with_gun(self.character.gun.fired())
    }

    /// The projectile that an attempt to fire in `direction` releases, if any:
    /// it starts one cell ahead of the player.
    pub open spec fn shot(self, direction: Direction) -> Option<Bullet> {
        self.character.gun.released(self.character.pos, direction)
    }

    /// The player after one count of cooling down its weapon.
    pub open spec fn cooled(self) -> Player {
        self.with_gun(self.character.gun.cooled())
    }

    /// Whether the player has any health left.
    pub open spec fn living(self) -> bool {
        self.character.health.is_alive()
    }

    /// The human player that the server hands to everyone who joins: one step
    /// per move, 100 points of health, a weapon that reloads in two counts and
    /// fires 20 points of damage five cells far.
    pub open spec fn standard(id: u8, position: Pos) -> Player {
        Player {
            id,
            typ: PlayerType::Player,
            character: Character {
                speed: 1,
                pos: position,
                health: Health { max: 100, current: 100 },
                gun: Gun {
                    reload_time: 2,
                    reload_awaiting: 0,
                    bullet: Bullet {
                        pos: Pos { x: 0, y: 0 },
                        range: 5,
                        direction: Direction::Nowhere,
                        damage: 20,
                    },
                },
            },
        }
    }

    pub fn new_player(id: u8, character: Character) -> (player: Player)
        ensures
            player == (Player { id, typ: PlayerType::Player, character }),
    {
        Player { id, typ: PlayerType::Player, character }
    }

    pub fn new_default_player(id: u8, position: Pos) -> (player: Player)
        ensures
            player == Player::standard(id, position),
    {
        Player::new_player(
            id,
            Character::new(1, position, Health::new(100), Gun::new(2, Bullet::new(5, 20))),
        )
    }

    pub fn new_bot(id: u8, character: Character) -> (player: Player)
        ensures
            player == (Player { id, typ: PlayerType::Bot, character }),
    {
        let mut bot = Player::new_player(id, character);
        bot.typ = PlayerType::Bot;
        bot
    }
}

impl Movable for Player {
    open spec fn position(&self) -> Pos {
        self.character.pos
    }

    open spec fn speed(&self) -> u8 {
        self.character.speed
    }

    open spec fn heading(&self) -> Direction {
        Direction::Nowhere
    }

    open spec fn moved(&self, direction: Direction) -> Player {
        self.pushed(direction)
    }

    fn get_position(&self) -> (pos: Pos)
        ensures
            pos == self.character.pos,
    {
        self.character.get_position()
    }

    fn shift(&mut self, direction: Direction)
        ensures
            *final(self) == old(self).pushed(direction),
    {
        self.character.shift(direction);
    }

    fn get_speed(&self) -> (speed: u8)
        ensures
            speed == self.character.speed,
    {
        self.character.get_speed()
    }

    fn get_direction(&self) -> (direction: Direction)
        ensures
            direction == Direction::Nowhere,
    {
        Direction::Nowhere
    }
}

impl Attack for Player {
    open spec fn after_attack(&self, direction: Direction) -> Player {
        self.fired()
    }

    open spec fn released(&self, direction: Direction) -> Option<Bullet> {
        self.shot(direction)
    }

    open spec fn after_reloading(&self) -> Player {
        self.cooled()
    }

    fn attack(&mut self, direction: Direction) -> (bullet: Option<Bullet>)
        ensures
            *final(self) == old(self).fired(),
            bullet == old(self).shot(direction),
    {
        let from = self.get_position();
        self.character.gun.shoot(from, direction)
    }

    fn reloading(&mut self)
        ensures
            *final(self) == old(self).cooled(),
    {
        self.character.gun.reloading_update();
    }
}

impl WithHealth for Player {
    open spec fn hurt(&self, damage: u8) -> Player {
        self.damaged(damage)
    }

    open spec fn is_alive(&self) -> bool {
        self.living()
    }

    fn get_damage(&mut self, damage: u8)
        ensures
            *final(self) == old(self).damaged(damage),
    {
        self.character.health.get_damage(damage);
    }

    fn alive(&self) -> (alive: bool)
        ensures
            alive == self.living(),
            alive <==> self.character.health.current > 0,
    {
        self.character.health.alive()
    }
}

impl WithId for Player {
    open spec fn ident(&self) -> u8 {
        self.id
    }

    fn get_id(&self) -> (id: u8)
        ensures
            id == self.id,
    {
        self.id
    }
}

impl WithCharacter for Player {
    open spec fn character_of(&self) -> Character {
        self.character
    }

    fn character(&self) -> (character: &Character)
        ensures
            *character == self.character,
    {
        &self.character
    }
}

impl DynPlayer for Player {

}

/// What others are told of a player.
#[derive(Debug, Clone, Copy, PartialEq, Eq, Structural)]
pub struct PlayerInfo {
    pub character: CharacterInfo,
}

impl PlayerInfo {
    /// Everything that is told of `player`, its position included.
    pub open spec fn of(player: Player) -> PlayerInfo {
        PlayerInfo { character: CharacterInfo::of(player.character) }
    }

    /// The same report with the position withheld.
    pub open spec fn hidden(self) -> PlayerInfo {
        PlayerInfo { character: self.character.hidden() }
    }

    pub fn new(player: &Player) -> (info: PlayerInfo)
        ensures
            info == PlayerInfo::of(*player),
    {
        PlayerInfo { character: CharacterInfo::new(player.character()) }
    }

    pub fn without_pos(&mut self)
        ensures
            *final(self) == old(self).hidden(),
    {
        self.character.without_pos();
    }
}

} // verus!
