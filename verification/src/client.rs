//! A participant as the scheduler knows it: a connection, and the actor it
//! steers once it has been matched into a game.

use vstd::prelude::*;

verus! {

/// Something that may steer an actor.
pub trait WithHero {
    /// The id of the actor it steers, if it steers one.
    spec fn hero(&self) -> Option<u8>;

    fn get_hero_id(&self) -> (hero: Option<u8>)
        ensures
            hero == self.hero(),
    ;
}

/// Everything the scheduler asks of a participant.
pub trait DynClient: WithHero {
    /// Gives it the actor with id `hero_id` to steer.
    fn add_hero_id(&mut self, hero_id: u8)
        ensures
            final(self).hero() == Some(hero_id),
    ;
}

/// A participant. `connection` is the caller's own name for the channel to
/// it; the scheduler hands it back and never looks inside.
#[derive(Debug, Clone, Copy, PartialEq, Eq, Structural)]
pub struct Client {
    pub connection: u64,
    pub hero_id: Option<u8>,
}

impl Client {
    /// The participant steering the actor with id `hero_id`.
    pub open spec fn steering(self, hero_id: u8) -> Client {
        Client { connection: self.connection, hero_id: Some(hero_id) }
    }

    /// A participant that steers nothing yet.
    pub fn new(connection: u64) -> (client: Client)
        ensures
            client == (Client { connection, hero_id: None }),
    {
        Client { connection, hero_id: None }
    }

    pub fn add_hero(&mut self, hero_id: u8)
        ensures
            *final(self) == old(self).steering(hero_id),
    {
        self.hero_id = Some(hero_id);
    }

    pub fn connection(&self) -> (connection: u64)
        ensures
            connection == self.connection,
    {
        self.connection
    }
}

impl WithHero for Client {
    open spec fn hero(&self) -> Option<u8> {
        self.hero_id
    }

    fn get_hero_id(&self) -> (hero: Option<u8>)
        ensures
            hero == self.hero_id,
    {
        self.hero_id
    }
}

impl DynClient for Client {
    fn add_hero_id(&mut self, hero_id: u8)
        ensures
            *final(self) == old(self).steering(hero_id),
    {
        self.hero_id = Some(hero_id);
    }
}

} // verus!
