//! The texts of the console version of the game, which counts rooms with
//! sixteen bits.

use vstd::prelude::*;
use crate::actor::{Actor, ActorType};

verus! {

broadcast use vstd::string::group_string_axioms;

pub open spec fn actor_name(t: ActorType) -> Seq<char> {
    match t {
        ActorType::You => "You"@,
        ActorType::Wumpus => "Wumpus"@,
        ActorType::Pit => "Pit"@,
        ActorType::Bat => "Bat"@,
    }
}

pub fn actor_to_string(actor: &Actor) -> (name: String)
    ensures
        name@ == actor_name(actor.actor_type),
{
    match actor.actor_type {
        ActorType::You => "You".to_string(),
        ActorType::Wumpus => "Wumpus".to_string(),
        ActorType::Pit => "Pit".to_string(),
        ActorType::Bat => "Bat".to_string(),
    }
}

pub open spec fn console_danger_text(t: ActorType) -> Seq<char> {
    match t {
        ActorType::Wumpus => "I smell a Wumpus!!"@,
        ActorType::Bat => "Bats nearby"@,
        ActorType::Pit => "I feel a draft"@,
        ActorType::You => Seq::empty(),
    }
}

/// A warning for each hazard among `actors`, in their order.
pub open spec fn console_danger_lines(actors: Seq<Actor>) -> Seq<Seq<char>>
    decreases actors.len(),
{
    if actors.len() == 0 {
        Seq::empty()
    } else {
        let rest = console_danger_lines(actors.drop_last());
        if actors.last().actor_type == ActorType::You {
            rest
        } else {
            rest.push(console_danger_text(actors.last().actor_type))
        }
    }
}

pub fn dangers_nearby_to_string(actors: Vec<&Actor>) -> (texts: Vec<String>)
    ensures
        texts@.map_values(|s: String| s@) == console_danger_lines(actors@.map_values(|a: &Actor| *a)),
{
    let ghost all = actors@.map_values(|a: &Actor| *a);
    let mut danger_list: Vec<String> = Vec::new();
    let mut i: usize = 0;
    while i < actors.len()
        invariant
            i <= actors.len(),
            all == actors@.map_values(|a: &Actor| *a),
            danger_list@.map_values(|s: String| s@) == console_danger_lines(all.take(i as int)),
        decreases actors.len() - i,
    {
        let actor = actors[i];
        match actor.actor_type {
            ActorType::Wumpus => danger_list.push("I smell a Wumpus!!".to_string()),
            ActorType::Bat => danger_list.push("Bats nearby".to_string()),
            ActorType::Pit => danger_list.push("I feel a draft".to_string()),
            ActorType::You => {},
        }
        proof {
            assert(all.take(i + 1).drop_last() =~= all.take(i as int));
            assert(all.take(i + 1).last() == *actor);
            assert(danger_list@.map_values(|s: String| s@) =~= console_danger_lines(all.take(i + 1)));
        }
        i = i + 1;
    }
    proof {
        assert(all.take(i as int) =~= all);
    }
    danger_list
}

} // verus!
