//! The actors as the console version of the game counts rooms: with room
//! numbers of sixteen bits.

use vstd::prelude::*;

verus! {

#[derive(Clone, Copy, PartialEq, Eq, Structural, Debug)]
pub enum ActorType {
    You,
    Wumpus,
    Bat,
    Pit,
}

#[derive(Clone, Copy, PartialEq, Eq, Structural, Debug)]
pub struct Actor {
    pub actor_type: ActorType,
    pub room: u16,
}

} // verus!
