//! The capabilities that actors and projectiles share. Each trait pairs its
//! executable methods with the spec functions that say what they do, so a
//! caller that knows only the trait can still reason about the effect.

use vstd::prelude::*;
use crate::character::{Bullet, Character};
use crate::direction::Direction;
use crate::pos::Pos;

verus! {

/// Something that has a place and can be pushed one step at a time.
pub trait Movable: Sized {
    /// Where it is.
    spec fn position(&self) -> Pos;

    /// How many steps one move may take.
    spec fn speed(&self) -> u8;

    /// Where it is heading of its own accord.
    spec fn heading(&self) -> Direction;

    /// What it is after one push in `direction`.
    spec fn moved(&self, direction: Direction) -> Self;

    fn get_position(&self) -> (pos: Pos)
        ensures
            pos == self.position(),
    ;

    /// One push in `direction`. The push knows nothing of any field; what
    /// cannot be shifted stays where it is.
    fn shift(&mut self, direction: Direction)
        ensures
            *final(self) == old(self).moved(direction),
    ;

    fn get_speed(&self) -> (speed: u8)
        ensures
            speed == self.speed(),
    ;

    fn get_direction(&self) -> (direction: Direction)
        ensures
            direction == self.heading(),
    ;
}

/// Something that is played through a character.
pub trait WithCharacter {
    spec fn character_of(&self) -> Character;

    fn character(&self) -> (character: &Character)
        ensures
            *character == self.character_of(),
    ;
}

/// Something that carries a weapon.
pub trait Attack: Sized {
    /// What it is after an attempt to fire in `direction`.
    spec fn after_attack(&self, direction: Direction) -> Self;

    /// The projectile that an attempt to fire in `direction` releases, if any.
    spec fn released(&self, direction: Direction) -> Option<Bullet>;

    /// What it is after its weapon has cooled down by one count.
    spec fn after_reloading(&self) -> Self;

    fn attack(&mut self, direction: Direction) -> (bullet: Option<Bullet>)
        ensures
            *final(self) == old(self).after_attack(direction),
            bullet == old(self).released(direction),
    ;

    fn reloading(&mut self)
        ensures
            *final(self) == old(self).after_reloading(),
    ;
}

/// Something that can be hurt.
pub trait WithHealth: Sized {
    /// What it is after taking `damage`.
    spec fn hurt(&self, damage: u8) -> Self;

    spec fn is_alive(&self) -> bool;

    fn get_damage(&mut self, damage: u8)
        ensures
            *final(self) == old(self).hurt(damage),
    ;

    fn alive(&self) -> (alive: bool)
        ensures
            alive == self.is_alive(),
    ;
}

/// Something that is told apart by a number.
pub trait WithId {
    spec fn ident(&self) -> u8;

    fn get_id(&self) -> (id: u8)
        ensures
            id == self.ident(),
    ;
}

/// Something with a fixed-width form on the wire.
pub trait IntoBytes<const N: usize> {
    spec fn bytes(&self) -> Seq<u8>;

    fn into_bytes(&self) -> (bytes: [u8; N])
        ensures
            bytes@ == self.bytes(),
    ;
}

} // verus!
