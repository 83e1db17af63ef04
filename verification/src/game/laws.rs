//! What holds of every game, whatever the dice say.

use vstd::prelude::*;
use crate::random::Random;
use super::actor::{Actor, ActorType, is_cast, fresh_cast, distinct_rooms, in_room, lemma_cast_positions, lemma_drawn_cast, lemma_with_room};
use super::constants::{GameStates, GameAction, GameOverReason, valid_room, maze};
use super::game::{
    GameView, game_step, can_act, actors_wf, flight, arrow_step, draws_cover, move_outcome, shot_outcome, bat_drop, shot_draws,
    wumpus_draws,
};

verus! {

/// Room `b` is one of the three that the tunnels of `a` lead to.
pub open spec fn adjacent(a: u8, b: u8) -> bool {
    maze(a)[0] == b || maze(a)[1] == b || maze(a)[2] == b
}

proof fn lemma_contains_adjacent(a: u8, b: u8)
    ensures
        maze(a).contains(b) <==> adjacent(a, b),
{
    assert(maze(a).len() == 3);
    if adjacent(a, b) {
        if maze(a)[0] == b {
            assert(maze(a).contains(b));
        } else if maze(a)[1] == b {
            assert(maze(a).contains(b));
        } else {
            assert(maze(a)[2] == b);
            assert(maze(a).contains(b));
        }
    }
}

/// The cave is a dodecahedron: every room has tunnels to three other rooms
/// of the cave, all different, and every tunnel can be walked both ways.
pub proof fn lemma_cave_is_dodecahedron(a: u8, b: u8)
    requires
        valid_room(a),
        valid_room(b),
    ensures
        maze(a).len() == 3,
        valid_room(maze(a)[0]) && valid_room(maze(a)[1]) && valid_room(maze(a)[2]),
        maze(a)[0] != maze(a)[1] && maze(a)[1] != maze(a)[2] && maze(a)[0] != maze(a)[2],
        !maze(a).contains(a),
        maze(a).contains(b) <==> maze(b).contains(a),
{
    lemma_contains_adjacent(a, b);
    lemma_contains_adjacent(b, a);
    lemma_contains_adjacent(a, a);
}

/// A move goes through one tunnel at most: afterwards you are where you were,
/// in the room you asked for if a tunnel leads there, or where a bat dropped
/// you. Nobody else moves, and the cast stays in the cave.
pub proof fn lemma_move_through_one_tunnel(g: GameView, new_room: u8, bat_room: u8)
    requires
        is_cast(g.actors),
        valid_room(bat_room),
    ensures
        is_cast(g.moved(new_room, bat_room).actors),
        forall|i: int| 1 <= i < 6 ==> #[trigger] g.moved(new_room, bat_room).actors[i] == g.actors[i],
        g.moved(new_room, bat_room).you_room() == g.you_room()
            || (maze(g.you_room()).contains(new_room) && !g.moved(new_room, bat_room).super_bat_move
                && g.moved(new_room, bat_room).you_room() == new_room)
            || (g.moved(new_room, bat_room).super_bat_move && g.moved(new_room, bat_room).you_room() == bat_room),
{
    lemma_cast_positions(g.actors);
    let h = g.moved(new_room, bat_room);
    lemma_cave_is_dodecahedron(g.you_room(), g.you_room());
    if maze(g.you_room()).contains(new_room) {
        let k = choose|k: int| 0 <= k < maze(g.you_room()).len() && maze(g.you_room())[k] == new_room;
        assert(valid_room(maze(g.you_room())[k]));
    }
    assert(is_cast(h.actors));
    lemma_cast_positions(h.actors);
}

/// Asking for a room that no tunnel of yours leads to changes nothing but the
/// news of the last move.
pub proof fn lemma_move_needs_a_tunnel(g: GameView, new_room: u8, bat_room: u8)
    requires
        !maze(g.you_room()).contains(new_room),
    ensures
        g.moved(new_room, bat_room) == (GameView { bumped_wumpus: false, super_bat_move: false, ..g }),
{
}

/// Only a bat makes a move depend on chance.
pub proof fn lemma_move_without_bat_is_determined(g: GameView, new_room: u8, bat_room1: u8, bat_room2: u8)
    requires
        !in_room(g.actors, ActorType::Bat, new_room),
    ensures
        g.moved(new_room, bat_room1) == g.moved(new_room, bat_room2),
{
}

/// Walking into a pit ends the game: you fall, unless the wumpus, already
/// awake and waiting in the same room, gets you first. The wumpus takes no
/// step then.
pub proof fn lemma_pit_ends_the_game(g: GameView, new_room: u8, bat_room: u8)
    requires
        maze(g.you_room()).contains(new_room),
        !in_room(g.actors, ActorType::Bat, new_room),
        in_room(g.actors, ActorType::Pit, new_room),
    ensures
        g.moved(new_room, bat_room).state == GameStates::GameOver,
        g.moved(new_room, bat_room).game_over_reason == GameOverReason::YouFellIntoPit
            || (g.wumpus_moves && in_room(g.actors, ActorType::Wumpus, new_room)
                && g.moved(new_room, bat_room).game_over_reason == GameOverReason::WumpusGotYou),
        forall|chance: u8, tunnel: u8| #[trigger] g.entered(new_room, bat_room, chance, tunnel) == g.moved(new_room, bat_room),
{
}

/// The wumpus wakes and moves one tunnel at most, or stays; nobody else
/// moves. If it then is where you are, it eats you; otherwise the game
/// goes on as it was.
pub proof fn lemma_wumpus_moves_one_tunnel(g: GameView, chance: u8, tunnel: u8)
    requires
        is_cast(g.actors),
        tunnel <= 2,
    ensures
        is_cast(g.wumpus_moved(chance, tunnel).actors),
        forall|i: int| 0 <= i < 5 ==> #[trigger] g.wumpus_moved(chance, tunnel).actors[i] == g.actors[i],
        g.wumpus_moved(chance, tunnel).wumpus_moves,
        g.wumpus_moved(chance, tunnel).you_room() == g.you_room(),
        g.wumpus_moved(chance, tunnel).wumpus_room() == if chance > 25 {
            maze(g.wumpus_room())[tunnel as int]
        } else {
            g.wumpus_room()
        },
        g.wumpus_moved(chance, tunnel).wumpus_room() == g.you_room()
            ==> g.wumpus_moved(chance, tunnel).state == GameStates::GameOver
                && g.wumpus_moved(chance, tunnel).game_over_reason == GameOverReason::WumpusGotYou,
        g.wumpus_moved(chance, tunnel).wumpus_room() != g.you_room()
            ==> g.wumpus_moved(chance, tunnel).state == g.state
                && g.wumpus_moved(chance, tunnel).game_over_reason == g.game_over_reason,
{
    lemma_cast_positions(g.actors);
    lemma_cave_is_dodecahedron(g.wumpus_room(), g.wumpus_room());
    let h = g.wumpus_moved(chance, tunnel);
    assert(is_cast(h.actors));
    lemma_cast_positions(h.actors);
}

/// Entering the wumpus's room, where no bat and no pit waits, you bump into
/// it: it wakes, and if it stays (a chance of 25 or less) it eats you; if
/// it moves, it leaves through one of its tunnels and you live on in its
/// old room.
pub proof fn lemma_bumping_the_wumpus(g: GameView, new_room: u8, bat_room: u8, chance: u8, tunnel: u8)
    requires
        is_cast(g.actors),
        g.state != GameStates::GameOver,
        maze(g.you_room()).contains(new_room),
        !in_room(g.actors, ActorType::Bat, new_room),
        !in_room(g.actors, ActorType::Pit, new_room),
        in_room(g.actors, ActorType::Wumpus, new_room),
        tunnel <= 2,
    ensures
        g.entered(new_room, bat_room, chance, tunnel).bumped_wumpus,
        g.entered(new_room, bat_room, chance, tunnel).you_room() == new_room,
        chance <= 25 ==> g.entered(new_room, bat_room, chance, tunnel).state == GameStates::GameOver
            && g.entered(new_room, bat_room, chance, tunnel).game_over_reason == GameOverReason::WumpusGotYou,
        chance > 25 ==> g.entered(new_room, bat_room, chance, tunnel).state == g.state
            && g.entered(new_room, bat_room, chance, tunnel).wumpus_room() == maze(new_room)[tunnel as int]
            && g.entered(new_room, bat_room, chance, tunnel).wumpus_room() != new_room,
{
    lemma_cast_positions(g.actors);
    let w = g.moved(new_room, bat_room);
    assert(g.actors[5].actor_type == ActorType::Wumpus);
    let k = choose|k: int| 0 <= k < g.actors.len() && (#[trigger] g.actors[k]).actor_type == ActorType::Wumpus
        && g.actors[k].room == new_room;
    assert(k == 5);
    lemma_move_without_bat_is_determined(g, new_room, bat_room, 1);
    lemma_move_through_one_tunnel(g, new_room, 1);
    lemma_cast_positions(w.actors);
    assert(w.wumpus_room() == new_room);
    assert(w.you_room() == new_room);
    lemma_wumpus_moves_one_tunnel(w, chance, tunnel);
    lemma_cave_is_dodecahedron(new_room, new_room);
}

/// Every shot spends one arrow. A hit ends the game, with the reason of
/// the hit: an arrow that reaches the wumpus wins. After a miss, the game
/// goes on only with an arrow left.
pub proof fn lemma_shot_spends_an_arrow(g: GameView, rooms: Seq<u8>, draws: Seq<u8>, chance: u8, tunnel: u8)
    requires
        g.number_of_arrows >= 1,
    ensures
        g.shot(rooms, draws, chance, tunnel).number_of_arrows == g.number_of_arrows - 1,
        flight(g.you_room(), rooms, g.you_room(), g.wumpus_room(), draws) matches Some(reason)
            ==> g.shot(rooms, draws, chance, tunnel).state == GameStates::GameOver
                && g.shot(rooms, draws, chance, tunnel).game_over_reason == reason,
        g.shot(rooms, draws, chance, tunnel).state != GameStates::GameOver
            ==> g.shot(rooms, draws, chance, tunnel).number_of_arrows >= 1,
        g.number_of_arrows == 1 ==> g.shot(rooms, draws, chance, tunnel).state == GameStates::GameOver,
{
}

/// An arrow goes through tunnels only: the first room it reaches is next to
/// the room it is shot from, whichever room is named. So a shot of one room
/// hits the wumpus only where the wumpus is next door, and there it always
/// hits when that room is named.
pub proof fn lemma_arrow_takes_tunnels(at: u8, named: u8, you: u8, wumpus: u8, draws: Seq<u8>)
    requires
        valid_room(at),
        draws_cover(at, seq![named], you, wumpus, draws),
        draws.len() > 0 ==> draws[0] <= 2,
    ensures
        maze(at).contains(arrow_step(at, named, draws[0])),
        flight(at, seq![named], you, wumpus, draws) == Some(GameOverReason::YouShotWumpus)
            ==> maze(at).contains(wumpus),
        maze(at).contains(named) && named == wumpus && wumpus != you
            ==> flight(at, seq![named], you, wumpus, draws) == Some(GameOverReason::YouShotWumpus),
{
    assert(maze(at).len() == 3);
    assert(seq![named][0] == named);
    let next = arrow_step(at, named, draws[0]);
    if !maze(at).contains(named) {
        assert(draws.len() > 0);
        assert(maze(at).contains(maze(at)[draws[0] as int]));
    }
    assert(maze(at).contains(next));
    let rest = if maze(at).contains(named) { draws } else { draws.drop_first() };
    assert(seq![named].drop_first().len() == 0);
    assert(flight(next, seq![named].drop_first(), you, wumpus, rest) is None);
}

/// A shot the game takes covers every stray step of its arrow with a draw;
/// so a shot of one room at a room that no tunnel of yours leads to never
/// hits the wumpus there.
pub proof fn lemma_stray_arrow_misses<R: Random>(
    g: GameView,
    named: u8,
    random: &R,
    draws: Seq<u8>,
    chance: u8,
    tunnel: u8,
)
    requires
        valid_room(g.you_room()),
        shot_draws(g, seq![named], random, draws, chance, tunnel),
        g.number_of_arrows >= 1,
        !maze(g.you_room()).contains(named),
        named == g.wumpus_room(),
    ensures
        g.shot(seq![named], draws, chance, tunnel).game_over_reason != GameOverReason::YouShotWumpus
            || g.game_over_reason == GameOverReason::YouShotWumpus,
{
    lemma_cave_is_dodecahedron(g.you_room(), g.you_room());
    if draws.len() > 0 {
        assert(draws[0] <= 2);
    }
    lemma_arrow_takes_tunnels(g.you_room(), named, g.you_room(), g.wumpus_room(), draws);
}

/// What the game keeps of its cast: nobody or the whole cast, both where
/// everybody is and where the last placement put them; and once everybody
/// is placed, the set-up is a whole cast too.
pub open spec fn cast_wf(g: GameView) -> bool {
    &&& actors_wf(g.actors)
    &&& actors_wf(g.setup)
    &&& is_cast(g.actors) ==> is_cast(g.setup)
}

/// Entering a room keeps the cast: the walk moves only you, and the woken
/// wumpus moves one tunnel at most.
proof fn lemma_entered_keeps_the_cast(g: GameView, new_room: u8, bat_room: u8, chance: u8, tunnel: u8)
    requires
        is_cast(g.actors),
        valid_room(bat_room),
        tunnel <= 2,
    ensures
        is_cast(g.entered(new_room, bat_room, chance, tunnel).actors),
        g.entered(new_room, bat_room, chance, tunnel).setup == g.setup,
{
    lemma_move_through_one_tunnel(g, new_room, bat_room);
    let w = g.moved(new_room, bat_room);
    if w.bumped_wumpus {
        lemma_wumpus_moves_one_tunnel(w, chance, tunnel);
    }
}

/// No action changes who is in the cave: a game with nobody placed either
/// stays so or gets a fresh cast, and a placed cast stays placed, each
/// actor keeping its type and standing in a room of the cave.
pub proof fn lemma_step_keeps_the_cast<R: Random>(g: GameView, action: GameAction, count: Option<u8>, random: &R, h: GameView)
    requires
        cast_wf(g),
        can_act(g, action, count),
        game_step(g, action, count, random, h),
    ensures
        cast_wf(h),
        is_cast(g.actors) ==> is_cast(h.actors),
{
    match action {
        GameAction::StartGame | GameAction::RestartClearAll => {
            lemma_drawn_cast(h.actors, random);
        },
        GameAction::MoveToRoom => {
            if let Some(room) = count {
                let m = choose|m: GameView| move_outcome(g, room, random, m) && h == m.settled();
                let (bat_room, chance, tunnel) = choose|bat_room: u8, chance: u8, tunnel: u8| {
                    &&& valid_room(bat_room)
                    &&& bat_drop(g, room) ==> random.may_draw(1, 21, bat_room)
                    &&& 1 <= chance <= 100
                    &&& tunnel <= 2
                    &&& g.moved(room, bat_room).bumped_wumpus && g.moved(room, bat_room).state != GameStates::GameOver
                        ==> wumpus_draws(random, chance, tunnel)
                    &&& m == g.entered(room, bat_room, chance, tunnel)
                };
                lemma_cast_positions(g.actors);
                lemma_entered_keeps_the_cast(g, room, bat_room, chance, tunnel);
            }
        },
        GameAction::ShootRoomNumber => {
            if let Some(room) = count {
                let g1 = GameView {
                    current_arrow_room_count: (g.current_arrow_room_count + 1) as u8,
                    rooms_to_shoot_arrows_in: g.rooms_to_shoot_arrows_in.push(room),
                    ..g
                };
                if g1.current_arrow_room_count >= g1.number_of_arrow_rooms {
                    let rooms = g1.rooms_to_shoot_arrows_in;
                    let m = choose|m: GameView| shot_outcome(g1, rooms, random, m) && h == m.settled();
                    let (draws, chance, tunnel) = choose|draws: Seq<u8>, chance: u8, tunnel: u8| {
                        &&& shot_draws(g1, rooms, random, draws, chance, tunnel)
                        &&& m == g1.shot(rooms, draws, chance, tunnel)
                    };
                    lemma_cast_positions(g.actors);
                    let g0 = GameView { number_of_arrows: (g1.number_of_arrows - 1) as u8, ..g1 };
                    if flight(g1.you_room(), rooms, g1.you_room(), g1.wumpus_room(), draws) is None {
                        lemma_wumpus_moves_one_tunnel(g0, chance, tunnel);
                    }
                }
            }
        },
        _ => {},
    }
}

/// The warnings name exactly the hazards next to you: every actor reported is
/// a bat, a pit or the wumpus in a room your tunnels lead to, and every such
/// actor is reported.
pub proof fn lemma_dangers_are_the_hazards_next_door(g: GameView, a: Actor)
    ensures
        g.dangers().contains(a) <==> (g.actors.contains(a) && maze(g.you_room()).contains(a.room)
            && a.actor_type != ActorType::You),
{
    let tunnels = maze(g.you_room());
    let pred = |x: Actor| tunnels.contains(x.room) && x.actor_type != ActorType::You;
    assert(g.dangers() == g.actors.filter(pred));
    if g.dangers().contains(a) {
        g.actors.lemma_filter_contains_rev(pred, a);
        let k = choose|k: int| 0 <= k < g.dangers().len() && g.dangers()[k] == a;
        g.actors.lemma_filter_pred(pred, k);
    }
    if g.actors.contains(a) && tunnels.contains(a.room) && a.actor_type != ActorType::You {
        let k = choose|k: int| 0 <= k < g.actors.len() && g.actors[k] == a;
        g.actors.lemma_filter_contains(pred, k);
    }
}

/// Restarting with the same set-up puts everybody back where the last
/// placement put them and gives back a full quiver; the number of rooms an
/// arrow flies never exceeds five. A start and a full restart place a fresh
/// cast from a shuffle of the rooms, everybody in a room of their own, and
/// keep it as the set-up. Quitting ends the game.
pub proof fn lemma_restart_and_aim<R: Random>(g: GameView, count: Option<u8>, random: &R, h: GameView)
    ensures
        game_step(g, GameAction::RestartSameSetup, count, random, h) ==> h.actors == g.setup && h.setup == g.setup
            && h.number_of_arrows == 5 && h.state == GameStates::DoYouWantToMoveOrShoot
            && h.game_over_reason == GameOverReason::NotDeadYet && !h.wumpus_moves,
        game_step(g, GameAction::ShootNumberOfRooms, count, random, h) && count is Some
            ==> 1 <= h.number_of_arrow_rooms <= 5,
        game_step(g, GameAction::RestartClearAll, count, random, h) ==> fresh_cast(h.actors) && h.number_of_arrows == 5
            && distinct_rooms(h.actors) && h.setup == h.actors,
        game_step(g, GameAction::StartGame, count, random, h) ==> fresh_cast(h.actors)
            && distinct_rooms(h.actors) && h.setup == h.actors,
        game_step(g, GameAction::Quit, count, random, h) ==> h.state == GameStates::GameOver,
{
    if game_step(g, GameAction::RestartClearAll, count, random, h) || game_step(g, GameAction::StartGame, count, random, h) {
        lemma_drawn_cast(h.actors, random);
    }
}

/// After a move, and after a shot, the game either asks again whether to
/// shoot or move, or it is over.
pub proof fn lemma_move_and_shot_settle<R: Random>(g: GameView, action: GameAction, room: u8, random: &R, h: GameView)
    requires
        action == GameAction::MoveToRoom || action == GameAction::ShootRoomNumber,
        game_step(g, action, Some(room), random, h),
        action == GameAction::ShootRoomNumber ==> g.current_arrow_room_count < 255,
        action == GameAction::ShootRoomNumber ==> g.current_arrow_room_count + 1 >= g.number_of_arrow_rooms,
    ensures
        h.state == GameStates::DoYouWantToMoveOrShoot || h.state == GameStates::GameOver,
{
    if action == GameAction::MoveToRoom {
        let m = choose|m: GameView| move_outcome(g, room, random, m) && h == m.settled();
    } else {
        let g1 = GameView {
            current_arrow_room_count: (g.current_arrow_room_count + 1) as u8,
            rooms_to_shoot_arrows_in: g.rooms_to_shoot_arrows_in.push(room),
            ..g
        };
        let m = choose|m: GameView| shot_outcome(g1, g1.rooms_to_shoot_arrows_in, random, m) && h == m.settled();
    }
}

/// The quiver is in order: the arrow's path holds as many rooms as have
/// been entered for it, and no more than five arrows are left.
pub open spec fn quiver_wf(g: GameView) -> bool {
    &&& g.rooms_to_shoot_arrows_in.len() == g.current_arrow_room_count
    &&& g.number_of_arrows <= 5
}

/// Every action keeps the quiver in order, whatever the dice say.
pub proof fn lemma_step_keeps_the_quiver<R: Random>(g: GameView, action: GameAction, count: Option<u8>, random: &R, h: GameView)
    requires
        quiver_wf(g),
        can_act(g, action, count),
        game_step(g, action, count, random, h),
    ensures
        quiver_wf(h),
{
    if action == GameAction::ShootRoomNumber && count is Some {
        let room = count->0;
        let g1 = GameView {
            current_arrow_room_count: (g.current_arrow_room_count + 1) as u8,
            rooms_to_shoot_arrows_in: g.rooms_to_shoot_arrows_in.push(room),
            ..g
        };
        if g1.current_arrow_room_count >= g1.number_of_arrow_rooms {
            let m = choose|m: GameView| shot_outcome(g1, g1.rooms_to_shoot_arrows_in, random, m) && h == m.settled();
        }
    }
}

/// The game `h` is reached from `g` by entering the rooms of `rooms`, one
/// `ShootRoomNumber` action each.
pub open spec fn aimed<R: Random>(g: GameView, rooms: Seq<u8>, random: &R, h: GameView) -> bool
    decreases rooms.len(),
{
    if rooms.len() == 0 {
        h == g
    } else {
        exists|m: GameView| aimed(g, rooms.drop_last(), random, m)
            && #[trigger] game_step(m, GameAction::ShootRoomNumber, Some(rooms.last()), random, h)
    }
}

/// After "shoot" and a number `n` of rooms from 1 to 5, entering rooms one
/// by one: all rooms are entered exactly when `n` of them are, the arrow
/// flies exactly then and spends one arrow, and until then the game keeps
/// asking for the next room. The path holds the rooms entered, in order.
pub proof fn lemma_arrow_flies_at_the_last_room<R: Random>(
    g: GameView,
    g1: GameView,
    g2: GameView,
    n: u8,
    rooms: Seq<u8>,
    random: &R,
    h: GameView,
)
    requires
        g.number_of_arrows >= 1,
        game_step(g, GameAction::Shoot, None, random, g1),
        game_step(g1, GameAction::ShootNumberOfRooms, Some(n), random, g2),
        1 <= n <= 5,
        rooms.len() <= n,
        aimed(g2, rooms, random, h),
    ensures
        h.current_arrow_room_count == rooms.len(),
        h.rooms_to_shoot_arrows_in == rooms,
        (h.current_arrow_room_count == h.number_of_arrow_rooms) == (rooms.len() == n),
        h.number_of_arrows == if rooms.len() == n { g.number_of_arrows - 1 } else { g.number_of_arrows as int },
        rooms.len() < n ==> h.state == GameStates::ShootEnterRoomNumber,
        rooms.len() == n ==> h.state == GameStates::DoYouWantToMoveOrShoot || h.state == GameStates::GameOver,
{
    lemma_rooms_entered(g2, n, rooms, random, h);
}

/// The induction behind `lemma_arrow_flies_at_the_last_room`, from the
/// game that has just been told the number of rooms.
proof fn lemma_rooms_entered<R: Random>(g2: GameView, n: u8, rooms: Seq<u8>, random: &R, h: GameView)
    requires
        g2.current_arrow_room_count == 0,
        g2.rooms_to_shoot_arrows_in.len() == 0,
        g2.number_of_arrow_rooms == n,
        g2.state == GameStates::ShootEnterRoomNumber,
        g2.number_of_arrows >= 1,
        1 <= n <= 5,
        rooms.len() <= n,
        aimed(g2, rooms, random, h),
    ensures
        h.current_arrow_room_count == rooms.len(),
        h.rooms_to_shoot_arrows_in == rooms,
        h.number_of_arrow_rooms == n,
        h.number_of_arrows == if rooms.len() == n { g2.number_of_arrows - 1 } else { g2.number_of_arrows as int },
        rooms.len() < n ==> h.state == GameStates::ShootEnterRoomNumber,
        rooms.len() == n ==> h.state == GameStates::DoYouWantToMoveOrShoot || h.state == GameStates::GameOver,
    decreases rooms.len(),
{
    if rooms.len() == 0 {
        assert(g2.rooms_to_shoot_arrows_in =~= rooms);
    } else {
        let room = rooms.last();
        let m = choose|m: GameView| aimed(g2, rooms.drop_last(), random, m)
            && #[trigger] game_step(m, GameAction::ShootRoomNumber, Some(room), random, h);
        lemma_rooms_entered(g2, n, rooms.drop_last(), random, m);
        assert(rooms.drop_last().push(room) =~= rooms);
        let m1 = GameView {
            current_arrow_room_count: (m.current_arrow_room_count + 1) as u8,
            rooms_to_shoot_arrows_in: m.rooms_to_shoot_arrows_in.push(room),
            ..m
        };
        if m1.current_arrow_room_count >= m1.number_of_arrow_rooms {
            let s = choose|s: GameView| shot_outcome(m1, m1.rooms_to_shoot_arrows_in, random, s) && h == s.settled();
        }
    }
}

/// The game `h` is reached from `g` by the actions of `steps`, each with
/// its number, every one of them taken where the game allows it.
pub open spec fn played<R: Random>(g: GameView, steps: Seq<(GameAction, Option<u8>)>, random: &R, h: GameView) -> bool
    decreases steps.len(),
{
    if steps.len() == 0 {
        h == g
    } else {
        exists|m: GameView| played(g, steps.drop_last(), random, m)
            && can_act(m, steps.last().0, steps.last().1)
            && #[trigger] game_step(m, steps.last().0, steps.last().1, random, h)
    }
}

/// Whatever actions a new game goes through: either nobody is placed or the
/// whole cast is, each actor of its type in a room of the cave, the set-up
/// likewise, and the quiver stays in order.
pub proof fn lemma_runs_keep_cast_and_quiver<R: Random>(steps: Seq<(GameAction, Option<u8>)>, random: &R, h: GameView)
    requires
        played(GameView::initial(), steps, random, h),
    ensures
        cast_wf(h),
        quiver_wf(h),
    decreases steps.len(),
{
    if steps.len() > 0 {
        let (action, count) = steps.last();
        let m = choose|m: GameView| played(GameView::initial(), steps.drop_last(), random, m)
            && can_act(m, action, count)
            && #[trigger] game_step(m, action, count, random, h);
        lemma_runs_keep_cast_and_quiver(steps.drop_last(), random, m);
        lemma_step_keeps_the_cast(m, action, count, random, h);
        lemma_step_keeps_the_quiver(m, action, count, random, h);
    }
}

/// A move through one of your tunnels takes you into the room you asked
/// for, or, where a bat waits there, into the room the bat drops you in;
/// the one exception is a pit room where the wumpus is already awake, which
/// gets you at the door. Wherever you end up, a wumpus there is bumped
/// into, unless you fell into a pit.
pub proof fn lemma_move_lands_you(g: GameView, new_room: u8, bat_room: u8)
    requires
        is_cast(g.actors),
        maze(g.you_room()).contains(new_room),
    ensures
        ({
            let bats = in_room(g.actors, ActorType::Bat, new_room);
            let dest = if bats { bat_room } else { new_room };
            let h = g.moved(new_room, bat_room);
            &&& h.super_bat_move == bats
            &&& !(in_room(g.actors, ActorType::Pit, dest) && in_room(g.actors, ActorType::Wumpus, dest)
                && g.wumpus_moves) ==> h.you_room() == dest
            &&& in_room(g.actors, ActorType::Wumpus, dest) && !in_room(g.actors, ActorType::Pit, dest)
                ==> h.bumped_wumpus && h.state == g.state
            &&& !in_room(g.actors, ActorType::Wumpus, dest) && !in_room(g.actors, ActorType::Pit, dest)
                ==> !h.bumped_wumpus && h.state == g.state
            &&& in_room(g.actors, ActorType::Pit, dest) ==> h.state == GameStates::GameOver
        }),
{
    lemma_cast_positions(g.actors);
    let bats = in_room(g.actors, ActorType::Bat, new_room);
    let dest = if bats { bat_room } else { new_room };
    lemma_with_room(g.actors, ActorType::You, dest, ActorType::You);
}

/// Walking into the wumpus's room while it sleeps and no pit is there,
/// whether through the tunnel or dropped there by a bat, wakes it: it takes
/// its step with the drawn chance and tunnel.
pub proof fn lemma_bump_wakes_the_wumpus(g: GameView, new_room: u8, bat_room: u8, chance: u8, tunnel: u8)
    requires
        is_cast(g.actors),
        g.state != GameStates::GameOver,
        maze(g.you_room()).contains(new_room),
        ({
            let dest = if in_room(g.actors, ActorType::Bat, new_room) { bat_room } else { new_room };
            in_room(g.actors, ActorType::Wumpus, dest) && !in_room(g.actors, ActorType::Pit, dest)
        }),
    ensures
        g.entered(new_room, bat_room, chance, tunnel) == g.moved(new_room, bat_room).wumpus_moved(chance, tunnel),
        g.entered(new_room, bat_room, chance, tunnel).bumped_wumpus,
        g.entered(new_room, bat_room, chance, tunnel).wumpus_moves,
{
    lemma_move_lands_you(g, new_room, bat_room);
}

/// The first room an arrow reaches that is the wumpus's ends the shot with
/// a hit, wherever it stands on the path: the arrow does not fly on.
pub proof fn lemma_arrow_stops_at_the_wumpus(at: u8, rooms: Seq<u8>, you: u8, wumpus: u8, draws: Seq<u8>)
    requires
        rooms.len() >= 1,
        maze(at).contains(rooms[0]),
        rooms[0] == wumpus,
        wumpus != you,
    ensures
        flight(at, rooms, you, wumpus, draws) == Some(GameOverReason::YouShotWumpus),
{
}

/// Shooting along a path whose first room, next to yours, is the wumpus's
/// wins the game, whatever rooms follow.
pub proof fn lemma_shooting_the_wumpus_wins(g: GameView, rooms: Seq<u8>, draws: Seq<u8>, chance: u8, tunnel: u8)
    requires
        g.number_of_arrows >= 1,
        rooms.len() >= 1,
        maze(g.you_room()).contains(rooms[0]),
        rooms[0] == g.wumpus_room(),
        g.wumpus_room() != g.you_room(),
    ensures
        g.shot(rooms, draws, chance, tunnel).state == GameStates::GameOver,
        g.shot(rooms, draws, chance, tunnel).game_over_reason == GameOverReason::YouShotWumpus,
{
    lemma_arrow_stops_at_the_wumpus(g.you_room(), rooms, g.you_room(), g.wumpus_room(), draws);
}

/// After a shot that misses, the wumpus wakes and takes its step with the
/// drawn chance and tunnel: above 25 it goes through that tunnel, otherwise
/// it stays; where it then is in your room, it has eaten you.
pub proof fn lemma_missed_shot_wakes_the_wumpus(g: GameView, rooms: Seq<u8>, draws: Seq<u8>, chance: u8, tunnel: u8)
    requires
        is_cast(g.actors),
        g.number_of_arrows >= 1,
        tunnel <= 2,
        flight(g.you_room(), rooms, g.you_room(), g.wumpus_room(), draws) is None,
    ensures
        g.shot(rooms, draws, chance, tunnel).wumpus_moves,
        g.shot(rooms, draws, chance, tunnel).you_room() == g.you_room(),
        g.shot(rooms, draws, chance, tunnel).wumpus_room() == if chance > 25 {
            maze(g.wumpus_room())[tunnel as int]
        } else {
            g.wumpus_room()
        },
        g.shot(rooms, draws, chance, tunnel).wumpus_room() == g.you_room()
            ==> g.shot(rooms, draws, chance, tunnel).state == GameStates::GameOver
                && g.shot(rooms, draws, chance, tunnel).game_over_reason == GameOverReason::WumpusGotYou,
{
    let g1 = GameView { number_of_arrows: (g.number_of_arrows - 1) as u8, ..g };
    lemma_wumpus_moves_one_tunnel(g1, chance, tunnel);
}

} // verus!
