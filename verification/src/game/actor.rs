//! The actors of the cave: you, the wumpus, two super bats and two pits.

use vstd::prelude::*;
use crate::random::Random;
use super::constants::{MAX_ROOMS, valid_room};

verus! {

#[derive(Clone, Copy, PartialEq, Eq, Structural, Debug)]
pub enum ActorType {
    You,
    Wumpus,
    Bat,
    Pit,
}

#[derive(Clone, Copy, PartialEq, Eq, Structural, Debug)]
pub struct Actor {
    pub actor_type: ActorType,
    pub room: u8,
}

/// The types of the cast in the order in which they are placed.
pub open spec fn cast_types() -> Seq<ActorType> {
    seq![ActorType::You, ActorType::Pit, ActorType::Pit, ActorType::Bat, ActorType::Bat, ActorType::Wumpus]
}

/// A placed cast: you, two pits, two bats and the wumpus, in that order, each in a room of the cave.
pub open spec fn is_cast(actors: Seq<Actor>) -> bool {
    &&& actors.len() == 6
    &&& forall|i: int| 0 <= i < 6 ==> (#[trigger] actors[i]).actor_type == cast_types()[i] && valid_room(actors[i].room)
}

/// A cast as `place_actors` makes it: every actor in a room numbered below `MAX_ROOMS`.
pub open spec fn fresh_cast(actors: Seq<Actor>) -> bool {
    &&& is_cast(actors)
    &&& forall|i: int| 0 <= i < 6 ==> (#[trigger] actors[i]).room < MAX_ROOMS
}

/// Some actor is of type `t`.
pub open spec fn has_actor(actors: Seq<Actor>, t: ActorType) -> bool {
    exists|i: int| 0 <= i < actors.len() && (#[trigger] actors[i]).actor_type == t
}

/// Index `i` holds the first actor of type `t`.
pub open spec fn is_first_of(actors: Seq<Actor>, t: ActorType, i: int) -> bool {
    &&& 0 <= i < actors.len()
    &&& actors[i].actor_type == t
    &&& forall|j: int| 0 <= j < i ==> (#[trigger] actors[j]).actor_type != t
}

/// The index of the first actor of type `t`.
pub open spec fn first_of(actors: Seq<Actor>, t: ActorType) -> int {
    choose|i: int| is_first_of(actors, t, i)
}

/// The first actor of type `t`.
pub open spec fn actor_of(actors: Seq<Actor>, t: ActorType) -> Actor {
    actors[first_of(actors, t)]
}

/// There is an actor of type `t` and the first one stands in a room of the cave.
pub open spec fn placed(actors: Seq<Actor>, t: ActorType) -> bool {
    has_actor(actors, t) && valid_room(actor_of(actors, t).room)
}

/// Some actor of type `t` is in `room`.
pub open spec fn in_room(actors: Seq<Actor>, t: ActorType, room: u8) -> bool {
    exists|i: int| 0 <= i < actors.len() && (#[trigger] actors[i]).actor_type == t && actors[i].room == room
}

/// The cast with the first actor of type `t` moved to `room`.
pub open spec fn with_room(actors: Seq<Actor>, t: ActorType, room: u8) -> Seq<Actor> {
    actors.update(first_of(actors, t), Actor { actor_type: t, room })
}

/// The first actor of a type is at one index only.
pub proof fn lemma_first_of(actors: Seq<Actor>, t: ActorType, i: int)
    requires
        is_first_of(actors, t, i),
    ensures
        first_of(actors, t) == i,
        has_actor(actors, t),
{
    let k = first_of(actors, t);
    assert(is_first_of(actors, t, k));
    if k < i {
        assert(actors[k].actor_type != t);
    } else if i < k {
        assert(actors[i].actor_type != t);
    }
}

/// Where there is an actor of type `t`, there is a first one.
pub proof fn lemma_first_exists(actors: Seq<Actor>, t: ActorType, i: int)
    requires
        0 <= i < actors.len(),
        actors[i].actor_type == t,
    ensures
        is_first_of(actors, t, first_of(actors, t)),
    decreases i,
{
    if forall|j: int| 0 <= j < i ==> (#[trigger] actors[j]).actor_type != t {
        assert(is_first_of(actors, t, i));
    } else {
        let j = choose|j: int| 0 <= j < i && (#[trigger] actors[j]).actor_type == t;
        lemma_first_exists(actors, t, j);
    }
}

/// Moving the first actor of type `t` changes no actor's type: the first
/// actor of every type stays at its index, the moved one stands in `room`,
/// and every other first actor keeps its room.
pub proof fn lemma_with_room(actors: Seq<Actor>, t: ActorType, room: u8, u: ActorType)
    requires
        has_actor(actors, t),
        has_actor(actors, u),
    ensures
        has_actor(with_room(actors, t, room), u),
        first_of(with_room(actors, t, room), u) == first_of(actors, u),
        actor_of(with_room(actors, t, room), t).room == room,
        u != t ==> actor_of(with_room(actors, t, room), u) == actor_of(actors, u),
{
    lemma_first_exists(actors, t, choose|i: int| 0 <= i < actors.len() && (#[trigger] actors[i]).actor_type == t);
    lemma_first_exists(actors, u, choose|i: int| 0 <= i < actors.len() && (#[trigger] actors[i]).actor_type == u);
    let k = first_of(actors, t);
    let j = first_of(actors, u);
    let moved = with_room(actors, t, room);
    assert(is_first_of(moved, u, j));
    lemma_first_of(moved, u, j);
    assert(is_first_of(moved, t, k));
    lemma_first_of(moved, t, k);
}

/// In a placed cast, you come first, then a pit, a bat, and the wumpus last.
pub proof fn lemma_cast_positions(actors: Seq<Actor>)
    requires
        is_cast(actors),
    ensures
        first_of(actors, ActorType::You) == 0,
        first_of(actors, ActorType::Pit) == 1,
        first_of(actors, ActorType::Bat) == 3,
        first_of(actors, ActorType::Wumpus) == 5,
        placed(actors, ActorType::You),
        placed(actors, ActorType::Pit),
        placed(actors, ActorType::Bat),
        placed(actors, ActorType::Wumpus),
{
    assert(actors[0].actor_type == ActorType::You);
    assert(actors[1].actor_type == ActorType::Pit);
    assert(actors[2].actor_type == ActorType::Pit);
    assert(actors[3].actor_type == ActorType::Bat);
    assert(actors[4].actor_type == ActorType::Bat);
    assert(actors[5].actor_type == ActorType::Wumpus);
    lemma_first_of(actors, ActorType::You, 0);
    lemma_first_of(actors, ActorType::Pit, 1);
    lemma_first_of(actors, ActorType::Bat, 3);
    lemma_first_of(actors, ActorType::Wumpus, 5);
}

/// The cast standing in the first six of `rooms`: you, two pits, two bats
/// and the wumpus, in that order.
pub open spec fn cast_of(rooms: Seq<u8>) -> Seq<Actor> {
    Seq::new(6, |i: int| Actor { actor_type: cast_types()[i], room: rooms[i] })
}

/// The rooms a cast is drawn from: 1 up to `MAX_ROOMS`, the bound excluded.
pub open spec fn rooms_below_max() -> Seq<u8> {
    Seq::new((MAX_ROOMS - 1) as nat, |i: int| (i + 1) as u8)
}

/// What a shuffle of `rooms_below_max()` gives back: the same rooms, each
/// exactly once, in some order.
pub open spec fn shuffled_rooms(s: Seq<u8>) -> bool {
    &&& s.len() == rooms_below_max().len()
    &&& forall|i: int| 0 <= i < s.len() ==> rooms_below_max().contains(#[trigger] s[i])
    &&& s.to_multiset() == rooms_below_max().to_multiset()
}

/// A cast placed in the first six rooms of a shuffle that `random` may
/// make of the rooms below `MAX_ROOMS`.
pub open spec fn drawn_cast<R: Random>(actors: Seq<Actor>, random: &R) -> bool {
    exists|s: Seq<u8>| {
        &&& random.may_shuffle(rooms_below_max(), s)
        &&& shuffled_rooms(s)
        &&& actors == cast_of(s)
    }
}

/// No two actors share a room.
pub open spec fn distinct_rooms(actors: Seq<Actor>) -> bool {
    forall|i: int, j: int| 0 <= i < j < actors.len() ==> (#[trigger] actors[i]).room != (#[trigger] actors[j]).room
}

/// A cast drawn from a shuffle is a fresh cast, with everybody in a room of
/// their own: two pits, two other rooms with bats, and you and the wumpus
/// elsewhere.
pub proof fn lemma_drawn_cast<R: Random>(actors: Seq<Actor>, random: &R)
    requires
        drawn_cast(actors, random),
    ensures
        fresh_cast(actors),
        distinct_rooms(actors),
{
    let s = choose|s: Seq<u8>| {
        &&& random.may_shuffle(rooms_below_max(), s)
        &&& shuffled_rooms(s)
        &&& actors == cast_of(s)
    };
    assert forall|i: int| 0 <= i < 6 implies 1 <= #[trigger] s[i] < MAX_ROOMS by {
        assert(rooms_below_max().contains(s[i]));
    }
    assert forall|i: int| 0 <= i < 6 implies (#[trigger] actors[i]).actor_type == cast_types()[i]
        && valid_room(actors[i].room) && actors[i].room < MAX_ROOMS by {
        assert(actors[i] == cast_of(s)[i]);
        assert(1 <= s[i] < MAX_ROOMS);
    }
    lemma_rooms_below_max_distinct();
    s.lemma_multiset_has_no_duplicates_conv();
    assert forall|i: int, j: int| 0 <= i < j < actors.len() implies (#[trigger] actors[i]).room != (#[trigger] actors[j]).room by {
        assert(actors[i].room == s[i]);
        assert(actors[j].room == s[j]);
    }
}

/// The rooms below `MAX_ROOMS` are listed once each.
proof fn lemma_rooms_below_max_distinct()
    ensures
        forall|x: u8| rooms_below_max().to_multiset().contains(x) ==> rooms_below_max().to_multiset().count(x) == 1,
{
    let r = rooms_below_max();
    assert(r.no_duplicates());
    r.lemma_multiset_has_no_duplicates();
}

/// Puts you, two pits, two bats and the wumpus in the first six of `rooms`.
pub fn cast_in(rooms: &Vec<u8>) -> (actors: Vec<Actor>)
    requires
        rooms.len() >= 6,
    ensures
        actors@ == cast_of(rooms@),
{
    let mut actors: Vec<Actor> = Vec::new();

    actors.push(Actor { actor_type: ActorType::You, room: rooms[0] });

    actors.push(Actor { actor_type: ActorType::Pit, room: rooms[1] });

    actors.push(Actor { actor_type: ActorType::Pit, room: rooms[2] });

    actors.push(Actor { actor_type: ActorType::Bat, room: rooms[3] });
    actors.push(Actor { actor_type: ActorType::Bat, room: rooms[4] });

    actors.push(Actor { actor_type: ActorType::Wumpus, room: rooms[5] });

    assert(actors@ =~= cast_of(rooms@));
    actors
}

/// Puts you, two pits, two bats and the wumpus in the rooms that come first
/// when the rooms below `MAX_ROOMS` are shuffled.
pub fn place_actors(random: &impl Random) -> (actors: Vec<Actor>)
    requires
        random.shuffles((MAX_ROOMS - 1) as nat),
    ensures
        drawn_cast(actors@, random),
        fresh_cast(actors@),
        distinct_rooms(actors@),
{
    let mut rooms: Vec<u8> = Vec::new();
    for rn in 1..MAX_ROOMS
        invariant
            rooms.len() == rn - 1,
            forall|j: int| 0 <= j < rooms.len() ==> #[trigger] rooms@[j] == j + 1,
    {
        rooms.push(rn);
    }
    assert(rooms@ =~= rooms_below_max());
    rooms = random.shuffle(rooms);
    let actors = cast_in(&rooms);
    proof {
        assert(shuffled_rooms(rooms@));
        lemma_drawn_cast(actors@, random);
    }
    actors
}

} // verus!
