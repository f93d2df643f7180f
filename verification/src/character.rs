//! What an actor is made of: health, a weapon with its projectile template,
//! and the character that holds them together.

use vstd::prelude::*;
use crate::direction::Direction;
use crate::pos::Pos;
use crate::traits::Movable;

verus! {

/// Hit points: how many at most, and how many now.
#[derive(Debug, Clone, Copy, PartialEq, Eq, Structural)]
pub struct Health {
    pub max: u8,
    pub current: u8,
}

impl Health {
    /// The current points never exceed the maximum.
    pub open spec fn wf(self) -> bool {
        self.current <= self.max
    }

    pub open spec fn is_alive(self) -> bool {
        self.current > 0
    }

    /// The health after `damage`: the current points go down by `damage` and
    /// stop at zero.
    pub open spec fn damaged(self, damage: u8) -> Health {
        Health {
            max: self.max,
            current: if self.current > damage {
                (self.current - damage) as u8
            } else {
                0
            },
        }
    }

    /// Full health.
    pub fn new(max: u8) -> (health: Health)
        ensures
            health == (Health { max, current: max }),
            health.wf(),
    {
        Health { max, current: max }
    }

    pub fn alive(&self) -> (alive: bool)
        ensures
            alive == self.is_alive(),
            alive <==> self.current > 0,
    {
        self.current > 0
    }

    /// Takes `damage`. The points saturate at zero.
    pub fn get_damage(&mut self, damage: u8)
        ensures
            *final(self) == old(self).damaged(damage),
            final(self).current == if old(self).current - damage > 0 {
                old(self).current - damage
            } else {
                0
            },
            final(self).max == old(self).max,
            old(self).wf() ==> final(self).wf(),
    {
        if self.current > damage {
            self.current -= damage;
        } else {
            self.current = 0;
        }
    }
}

/// A projectile. One that is spent has no range, no damage and no direction
/// left, and never comes back to life.
#[derive(Debug, Clone, Copy, PartialEq, Eq, Structural)]
pub struct Bullet {
    pub pos: Pos,
    pub range: u8,
    pub direction: Direction,
    pub damage: u8,
}

impl Bullet {
    /// Whether the projectile can still travel.
    pub open spec fn live(self) -> bool {
        self.range > 0
    }

    /// The projectile after it has hit something.
    pub open spec fn spent(self) -> Bullet {
        Bullet { pos: self.pos, range: 0, direction: Direction::Nowhere, damage: 0 }
    }

    /// Whether nothing is left of the projectile but its place.
    pub open spec fn is_spent(self) -> bool {
        self.range == 0 && self.damage == 0 && self.direction == Direction::Nowhere
    }

    /// The projectile after one push in `direction`: a live one goes one cell
    /// on and loses one unit of range, or loses all of it where the cell ahead
    /// cannot be written as a position; one without range stays as it is.
    pub open spec fn pushed(self, direction: Direction) -> Bullet {
        if !self.live() {
            self
        } else {
            match self.pos.shifted(direction) {
                Some(pos) => Bullet { pos, range: (self.range - 1) as u8, ..self },
                None => Bullet { range: 0, ..self },
            }
        }
    }

    /// A template: a projectile that is nowhere yet and heads nowhere.
    pub fn new(range: u8, damage: u8) -> (bullet: Bullet)
        ensures
            bullet == (Bullet {
                pos: Pos { x: 0, y: 0 },
                range,
                direction: Direction::Nowhere,
                damage,
            }),
    {
        Bullet { pos: Pos::new(0, 0), range, direction: Direction::Nowhere, damage }
    }

    /// Spends the projectile and hands out the damage it carried.
    pub fn use_up(&mut self) -> (damage: u8)
        ensures
            damage == old(self).damage,
            *final(self) == old(self).spent(),
            final(self).is_spent(),
    {
        let dmg = self.damage;
        self.used();
        dmg
    }

    fn used(&mut self)
        ensures
            *final(self) == old(self).spent(),
    {
        self.range = 0;
        self.damage = 0;
        self.direction = Direction::Nowhere;
    }

    pub fn can_move(&self) -> (live: bool)
        ensures
            live == self.live(),
    {
        self.range > 0
    }
}

impl Movable for Bullet {
    open spec fn position(&self) -> Pos {
        self.pos
    }

    open spec fn speed(&self) -> u8 {
        u8::MAX
    }

    open spec fn heading(&self) -> Direction {
        self.direction
    }

    open spec fn moved(&self, direction: Direction) -> Bullet {
        self.pushed(direction)
    }

    fn get_position(&self) -> (pos: Pos)
        ensures
            pos == self.pos,
    {
        self.pos
    }

    fn shift(&mut self, direction: Direction)
        ensures
            *final(self) == old(self).pushed(direction),
    {
        if self.can_move() {
            if let Some(new_pos) = self.pos.shift(direction) {
                self.range -= 1;
                self.pos = new_pos;
                return ;
            }
            self.range = 0;
        }
    }

    fn get_speed(&self) -> (speed: u8)
        ensures
            speed == u8::MAX,
    {
        u8::MAX
    }

    fn get_direction(&self) -> (direction: Direction)
        ensures
            direction == self.direction,
    {
        self.direction
    }
}

/// A weapon: how long it takes to reload, how long it still has to wait
/// (0 means ready), and the projectile it fires.
#[derive(Debug, Clone, Copy, PartialEq, Eq, Structural)]
pub struct Gun {
    pub reload_time: u8,
    pub reload_awaiting: u8,
    pub bullet: Bullet,
}

impl Gun {
    /// The wait never exceeds the reload time.
    pub open spec fn wf(self) -> bool {
        self.reload_awaiting <= self.reload_time
    }

    pub open spec fn ready(self) -> bool {
        self.reload_awaiting == 0
    }

    /// The weapon after one count of cooling down: the wait goes down by one
    /// and stops at zero.
    pub open spec fn cooled(self) -> Gun {
        Gun {
            reload_awaiting: if self.reload_awaiting > 0 {
                (self.reload_awaiting - 1) as u8
            } else {
                0
            },
            ..self
        }
    }

    /// The weapon after an attempt to fire: a ready one starts its full wait,
    /// whether or not a projectile came out; one that waits is unchanged.
    pub open spec fn fired(self) -> Gun {
        if self.ready() {
            Gun { reload_awaiting: self.reload_time, ..self }
        } else {
            self
        }
    }

    /// The projectile that an attempt to fire from `from` in `direction`
    /// releases: none from a weapon that waits; from a ready one a copy of the
    /// template, one cell ahead of `from` and heading in `direction`, or none
    /// where that cell cannot be written as a position. The field is not
    /// asked: a projectile may start on a wall or outside the field, and
    /// flies on from there as far as the field lets it.
    pub open spec fn released(self, from: Pos, direction: Direction) -> Option<Bullet> {
        if !self.ready() {
            None
        } else {
            match from.shifted(direction) {
                Some(pos) => Some(
                    Bullet { pos, range: self.bullet.range, direction, damage: self.bullet.damage },
                ),
                None => None,
            }
        }
    }

    /// A loaded weapon that takes `reloading` counts to reload and fires
    /// copies of `bullet`.
    pub fn new(reloading: u8, bullet: Bullet) -> (gun: Gun)
        ensures
            gun == (Gun { reload_time: reloading, reload_awaiting: 0, bullet }),
            gun.ready(),
            gun.wf(),
    {
        Gun { reload_time: reloading, reload_awaiting: 0, bullet }
    }

    pub fn can_shoot(&self) -> (ready: bool)
        ensures
            ready == self.ready(),
            ready <==> self.reload_awaiting == 0,
    {
        self.reload_awaiting == 0
    }

    /// One count of cooling down. At zero nothing happens.
    pub fn reloading_update(&mut self)
        ensures
            *final(self) == old(self).cooled(),
            old(self).wf() ==> final(self).wf(),
    {
        if self.can_shoot() {
            return ;
        }
        self.reload_awaiting -= 1;
    }

    /// An attempt to fire from `from` in `direction`.
    pub fn shoot(&mut self, from: Pos, direction: Direction) -> (bullet: Option<Bullet>)
        ensures
            *final(self) == old(self).fired(),
            bullet == old(self).released(from, direction),
            old(self).wf() ==> final(self).wf(),
    {
        if self.can_shoot() {
            self.reload_awaiting = self.reload_time;
            let mut bullet = self.bullet;
            bullet.direction = direction;
            if let Some(pos) = from.shift(direction) {
                bullet.pos = pos;
                return Some(bullet);
            }
        }
        None
    }
}

/// An actor's body: how fast it is, where it stands, its health and weapon.
#[derive(Debug, Clone, Copy, PartialEq, Eq, Structural)]
pub struct Character {
    pub speed: u8,
    pub pos: Pos,
    pub health: Health,
    pub gun: Gun,
}

impl Character {
    /// The character after one push in `direction`: one cell on, or where it
    /// was if that cell cannot be written as a position.
    pub open spec fn pushed(self, direction: Direction) -> Character {
        match self.pos.shifted(direction) {
            Some(pos) => Character { pos, ..self },
            None => self,
        }
    }

    pub fn new(speed: u8, pos: Pos, health: Health, gun: Gun) -> (character: Character)
        ensures
            character == (Character { speed, pos, health, gun }),
    {
        Character { speed, pos, health, gun }
    }
}

impl Movable for Character {
    open spec fn position(&self) -> Pos {
        self.pos
    }

    open spec fn speed(&self) -> u8 {
        self.speed
    }

    open spec fn heading(&self) -> Direction {
        Direction::Nowhere
    }

    open spec fn moved(&self, direction: Direction) -> Character {
        self.pushed(direction)
    }

    fn get_position(&self) -> (pos: Pos)
        ensures
            pos == self.pos,
    {
        self.pos
    }

    fn shift(&mut self, direction: Direction)
        ensures
            *final(self) == old(self).pushed(direction),
    {
        if let Some(new_pos) = self.pos.shift(direction) {
            self.pos = new_pos
        }
    }

    fn get_speed(&self) -> (speed: u8)
        ensures
            speed == self.speed,
    {
        self.speed
    }

    fn get_direction(&self) -> (direction: Direction)
        ensures
            direction == Direction::Nowhere,
    {
        Direction::Nowhere
    }
}

/// What others are told of a character. The position is withheld while the
/// character is hidden.
#[derive(Debug, Clone, Copy, PartialEq, Eq, Structural)]
pub struct CharacterInfo {
    pub health: u8,
    pub gun_reloading_await: u8,
    pub bullet_damage: u8,
    pub bullet_range: u8,
    pub pos: Option<Pos>,
}

impl CharacterInfo {
    /// Everything that is told of `c`, its position included.
    pub open spec fn of(c: Character) -> CharacterInfo {
        CharacterInfo {
            health: c.health.current,
            gun_reloading_await: c.gun.reload_awaiting,
            bullet_damage: c.gun.bullet.damage,
            bullet_range: c.gun.bullet.range,
            pos: Some(c.pos),
        }
    }

    /// The same report with the position withheld.
    pub open spec fn hidden(self) -> CharacterInfo {
        CharacterInfo { pos: None, ..self }
    }

    pub fn new(c: &Character) -> (info: CharacterInfo)
        ensures
            info == CharacterInfo::of(*c),
    {
        CharacterInfo {
            health: c.health.current,
            gun_reloading_await: c.gun.reload_awaiting,
            bullet_damage: c.gun.bullet.damage,
            bullet_range: c.gun.bullet.range,
            pos: Some(c.pos),
        }
    }

    pub fn without_pos(&mut self)
        ensures
            *final(self) == old(self).hidden(),
    {
        self.pos = None;
    }
}

} // verus!
