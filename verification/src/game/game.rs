//! A game of Hunt the Wumpus as a state machine driven by `GameAction`s.

use vstd::prelude::*;
use crate::random::{Random, OsRandom, WasmRandom, draws_below};
use super::actor::{
    Actor, ActorType, place_actors, is_cast, drawn_cast, has_actor, is_first_of, first_of, actor_of,
    placed, in_room, with_room, lemma_first_of, lemma_with_room,
};
use super::constants::{MAX_ROOMS, GameStates, GameAction, GameOverReason, valid_room, maze, maze_tunnels};

verus! {

/// One game: where everybody is, where everybody was placed at the start,
/// what the player is asked, and the player's quiver.
pub struct Game {
    state: GameStates,
    actors: Vec<Actor>,
    setup: Vec<Actor>,
    bumped_wumpus: bool,
    wumpus_moves: bool,
    super_bat_move: bool,
    pub number_of_arrows: u8,
    pub number_of_arrow_rooms: u8,
    pub current_arrow_room_count: u8,
    pub rooms_to_shoot_arrows_in: Vec<u8>,
    game_over_reason: GameOverReason,
}

/// A game as a value: the same fields, with sequences for the vectors.
#[verifier::ext_equal]
pub struct GameView {
    pub state: GameStates,
    pub actors: Seq<Actor>,
    pub setup: Seq<Actor>,
    pub bumped_wumpus: bool,
    pub wumpus_moves: bool,
    pub super_bat_move: bool,
    pub number_of_arrows: u8,
    pub number_of_arrow_rooms: u8,
    pub current_arrow_room_count: u8,
    pub rooms_to_shoot_arrows_in: Seq<u8>,
    pub game_over_reason: GameOverReason,
}

impl View for Game {
    type V = GameView;

    closed spec fn view(&self) -> GameView {
        GameView {
            state: self.state,
            actors: self.actors@,
            setup: self.setup@,
            bumped_wumpus: self.bumped_wumpus,
            wumpus_moves: self.wumpus_moves,
            super_bat_move: self.super_bat_move,
            number_of_arrows: self.number_of_arrows,
            number_of_arrow_rooms: self.number_of_arrow_rooms,
            current_arrow_room_count: self.current_arrow_room_count,
            rooms_to_shoot_arrows_in: self.rooms_to_shoot_arrows_in@,
            game_over_reason: self.game_over_reason,
        }
    }
}

/// The room an arrow in `at` flies to when it is aimed at `named`: the named
/// room where a tunnel leads there, otherwise the tunnel numbered `draw`.
pub open spec fn arrow_step(at: u8, named: u8, draw: u8) -> u8 {
    if maze(at).contains(named) {
        named
    } else {
        maze(at)[draw as int]
    }
}

/// The flight of an arrow from `at` along the rooms named in `rooms`: the
/// first room it reaches that is yours or the wumpus's decides the shot,
/// `None` where it reaches neither. Each room that no tunnel leads to takes
/// the next of `draws` as the number of the tunnel the arrow takes instead.
pub open spec fn flight(at: u8, rooms: Seq<u8>, you: u8, wumpus: u8, draws: Seq<u8>) -> Option<GameOverReason>
    decreases rooms.len(),
{
    if rooms.len() == 0 {
        None
    } else {
        let through = maze(at).contains(rooms[0]);
        let next = arrow_step(at, rooms[0], draws[0]);
        let rest = if through { draws } else { draws.drop_first() };
        if next == you {
            Some(GameOverReason::YouShotYourself)
        } else if next == wumpus {
            Some(GameOverReason::YouShotWumpus)
        } else {
            flight(next, rooms.drop_first(), you, wumpus, rest)
        }
    }
}

/// `draws` holds a draw for each room of the flight from `at` that no
/// tunnel leads to, until the arrow hits or the rooms run out.
pub open spec fn draws_cover(at: u8, rooms: Seq<u8>, you: u8, wumpus: u8, draws: Seq<u8>) -> bool
    decreases rooms.len(),
{
    if rooms.len() == 0 {
        true
    } else {
        let through = maze(at).contains(rooms[0]);
        if !through && draws.len() == 0 {
            false
        } else {
            let next = arrow_step(at, rooms[0], draws[0]);
            let rest = if through { draws } else { draws.drop_first() };
            next == you || next == wumpus || draws_cover(next, rooms.drop_first(), you, wumpus, rest)
        }
    }
}

impl GameView {
    /// A new game: nobody placed yet, five arrows.
    pub open spec fn initial() -> GameView {
        GameView {
            state: GameStates::GameStart,
            actors: Seq::empty(),
            setup: Seq::empty(),
            bumped_wumpus: false,
            wumpus_moves: false,
            super_bat_move: false,
            number_of_arrows: 5,
            number_of_arrow_rooms: 0,
            current_arrow_room_count: 0,
            rooms_to_shoot_arrows_in: Seq::empty(),
            game_over_reason: GameOverReason::NotDeadYet,
        }
    }

    /// Everything back to the start but the actors and the set-up.
    pub open spec fn cleared(self) -> GameView {
        GameView { actors: self.actors, setup: self.setup, ..GameView::initial() }
    }

    /// A restart with the same set-up: everything back to the start, and
    /// everybody back where the last placement put them.
    pub open spec fn restored(self) -> GameView {
        GameView { actors: self.setup, ..self.cleared().at(GameStates::DoYouWantToMoveOrShoot) }
    }

    /// The game with `actors` in place of its actors.
    pub open spec fn with_actors(self, actors: Seq<Actor>) -> GameView {
        GameView { actors, ..self }
    }

    /// The game with a new placement `actors`, which is also its set-up.
    pub open spec fn placed_as(self, actors: Seq<Actor>) -> GameView {
        GameView { actors, setup: actors, ..self }
    }

    /// The game with state `state`.
    pub open spec fn at(self, state: GameStates) -> GameView {
        GameView { state, ..self }
    }

    /// The game over, for `reason`.
    pub open spec fn ended(self, reason: GameOverReason) -> GameView {
        GameView { state: GameStates::GameOver, game_over_reason: reason, ..self }
    }

    /// After a move or a shot: back to the question "shoot or move", unless the game is over.
    pub open spec fn settled(self) -> GameView {
        if self.state != GameStates::GameOver {
            self.at(GameStates::DoYouWantToMoveOrShoot)
        } else {
            self
        }
    }

    pub open spec fn you_room(self) -> u8 {
        actor_of(self.actors, ActorType::You).room
    }

    pub open spec fn wumpus_room(self) -> u8 {
        actor_of(self.actors, ActorType::Wumpus).room
    }

    /// The hazards in the rooms next to yours, in the order of the cast.
    pub open spec fn dangers(self) -> Seq<Actor> {
        let tunnels = maze(self.you_room());
        self.actors.filter(|a: Actor| tunnels.contains(a.room) && a.actor_type != ActorType::You)
    }

    /// You walk towards `new_room`; where a bat takes you, it drops you in `bat_room`.
    ///
    /// A room that no tunnel of yours leads to leaves you where you are. A bat
    /// in the room carries you off before anything else happens there. In the
    /// room you end up in, a pit ends the game: you fall in, and bump into a
    /// sleeping wumpus there, but a wumpus already awake there gets you at
    /// the door. Otherwise, where the wumpus is there, you bump into it.
    pub open spec fn moved(self, new_room: u8, bat_room: u8) -> GameView {
        let g0 = GameView { bumped_wumpus: false, super_bat_move: false, ..self };
        if !maze(self.you_room()).contains(new_room) {
            g0
        } else {
            let bats = in_room(self.actors, ActorType::Bat, new_room);
            let dest = if bats { bat_room } else { new_room };
            let g1 = GameView {
                super_bat_move: bats,
                actors: with_room(self.actors, ActorType::You, dest),
                ..g0
            };
            let wumpus = in_room(self.actors, ActorType::Wumpus, dest);
            if in_room(self.actors, ActorType::Pit, dest) {
                if wumpus && self.wumpus_moves {
                    GameView { super_bat_move: bats, ..g0 }.ended(GameOverReason::WumpusGotYou)
                } else if wumpus {
                    GameView { bumped_wumpus: true, wumpus_moves: true, ..g1 }.ended(GameOverReason::YouFellIntoPit)
                } else {
                    g1.ended(GameOverReason::YouFellIntoPit)
                }
            } else if wumpus {
                GameView { bumped_wumpus: true, ..g1 }
            } else {
                g1
            }
        }
    }

    /// The wumpus wakes and stirs: with a `chance` above 25 it takes tunnel
    /// number `tunnel` out of its room, otherwise it stays. Then, if it is
    /// where you are, it eats you.
    pub open spec fn wumpus_moved(self, chance: u8, tunnel: u8) -> GameView {
        let awake = GameView { wumpus_moves: true, ..self };
        let room = if chance > 25 { maze(self.wumpus_room())[tunnel as int] } else { self.wumpus_room() };
        let w = if chance > 25 {
            GameView { actors: with_room(self.actors, ActorType::Wumpus, room), ..awake }
        } else {
            awake
        };
        if room == self.you_room() {
            w.ended(GameOverReason::WumpusGotYou)
        } else {
            w
        }
    }

    /// You enter a room: the walk, and where you bumped into the wumpus and
    /// are still alive, the step it takes on waking, with `chance` and `tunnel`.
    pub open spec fn entered(self, new_room: u8, bat_room: u8, chance: u8, tunnel: u8) -> GameView {
        let w = self.moved(new_room, bat_room);
        if w.bumped_wumpus && w.state != GameStates::GameOver {
            w.wumpus_moved(chance, tunnel)
        } else {
            w
        }
    }

    /// You shoot an arrow along `rooms`, with `draws` for the tunnels it
    /// takes at random. A hit ends the game. After a miss the wumpus wakes
    /// and stirs with `chance` and `tunnel`; then, with the quiver empty and
    /// the game not over, you have lost for want of arrows.
    pub open spec fn shot(self, rooms: Seq<u8>, draws: Seq<u8>, chance: u8, tunnel: u8) -> GameView {
        let g1 = GameView { number_of_arrows: (self.number_of_arrows - 1) as u8, ..self };
        match flight(self.you_room(), rooms, self.you_room(), self.wumpus_room(), draws) {
            Some(reason) => g1.ended(reason),
            None => {
                let g2 = g1.wumpus_moved(chance, tunnel);
                if g2.state != GameStates::GameOver && g2.number_of_arrows == 0 {
                    g2.ended(GameOverReason::YouAreOutOfArrows)
                } else {
                    g2
                }
            },
        }
    }
}

/// A bat waits in `new_room`, and a tunnel of yours leads there: the move
/// asks for a room to be dropped in.
pub open spec fn bat_drop(g: GameView, new_room: u8) -> bool {
    maze(g.you_room()).contains(new_room) && in_room(g.actors, ActorType::Bat, new_room)
}

/// The wumpus's draws: a chance that `random` may draw from 1 to 100 and,
/// where the chance is above 25, one of the three tunnels, which it may draw
/// from 0 to 2.
pub open spec fn wumpus_draws<R: Random>(random: &R, chance: u8, tunnel: u8) -> bool {
    &&& 1 <= chance <= 100
    &&& tunnel <= 2
    &&& random.may_draw(1, 101, chance)
    &&& chance > 25 ==> random.may_draw(0, 3, tunnel)
}

/// What `Game::move_you` may leave behind: the walk, with a bat drop in a
/// room that `random` may draw from 1 to 20, and the wumpus's step where you
/// bumped into it.
pub open spec fn move_outcome<R: Random>(g: GameView, new_room: u8, random: &R, h: GameView) -> bool {
    exists|bat_room: u8, chance: u8, tunnel: u8| {
        &&& valid_room(bat_room)
        &&& bat_drop(g, new_room) ==> random.may_draw(1, 21, bat_room)
        &&& 1 <= chance <= 100
        &&& tunnel <= 2
        &&& g.moved(new_room, bat_room).bumped_wumpus && g.moved(new_room, bat_room).state != GameStates::GameOver
            ==> wumpus_draws(random, chance, tunnel)
        &&& h == g.entered(new_room, bat_room, chance, tunnel)
    }
}

/// What `Game::move_wumpus` may leave behind.
pub open spec fn wumpus_outcome<R: Random>(g: GameView, random: &R, h: GameView) -> bool {
    exists|chance: u8, tunnel: u8| wumpus_draws(random, chance, tunnel) && h == g.wumpus_moved(chance, tunnel)
}

/// Tunnels an arrow may take at random: each one of the three, as `random`
/// may draw it from 0 to 2.
pub open spec fn arrow_draws<R: Random>(random: &R, draws: Seq<u8>) -> bool {
    forall|k: int| 0 <= k < draws.len() ==> #[trigger] draws[k] <= 2 && random.may_draw(0, 3, draws[k])
}

/// The draws behind a shot: the arrow's, and the wumpus's after a miss.
pub open spec fn shot_draws<R: Random>(g: GameView, rooms: Seq<u8>, random: &R, draws: Seq<u8>, chance: u8, tunnel: u8) -> bool {
    &&& arrow_draws(random, draws)
    &&& draws_cover(g.you_room(), rooms, g.you_room(), g.wumpus_room(), draws)
    &&& 1 <= chance <= 100
    &&& tunnel <= 2
    &&& flight(g.you_room(), rooms, g.you_room(), g.wumpus_room(), draws) is None ==> wumpus_draws(random, chance, tunnel)
}

/// What `Game::shoot` may leave behind.
pub open spec fn shot_outcome<R: Random>(g: GameView, rooms: Seq<u8>, random: &R, h: GameView) -> bool {
    exists|draws: Seq<u8>, chance: u8, tunnel: u8| {
        &&& shot_draws(g, rooms, random, draws, chance, tunnel)
        &&& h == g.shot(rooms, draws, chance, tunnel)
    }
}

/// What a game asks of its source of randomness: a room from 1 to 20 for a
/// bat to drop you in, the wumpus's chance from 1 to 100, one of three
/// tunnels for it or for a stray arrow, and a shuffle of the rooms below
/// `MAX_ROOMS`.
pub open spec fn fit_for_game<R: Random>(random: &R) -> bool {
    &&& random.draws_in(1, 21)
    &&& random.draws_in(1, 101)
    &&& random.draws_in(0, 3)
    &&& random.shuffles((MAX_ROOMS - 1) as nat)
}

/// The system's source serves a game.
pub proof fn lemma_os_random_fit_for_game(random: &OsRandom)
    ensures
        fit_for_game(random),
{
}

/// A host source serves a game where its function, asked for a number below
/// any bound from 2 to 100, may be called and answers below the bound.
pub proof fn lemma_wasm_random_fit_for_game<F: Fn(u8) -> u8>(random: &WasmRandom<F>)
    requires
        forall|n: u8| 2 <= n <= 100 ==> #[trigger] draws_below(random.random_function(), n),
    ensures
        fit_for_game(random),
{
    assert(draws_below(random.random_function(), 20));
    assert(draws_below(random.random_function(), 100));
    assert(draws_below(random.random_function(), 3));
}

/// What `Game::game_action` may make of `g` for `action` and `count`,
/// with the numbers and the shuffle that `random` may give.
pub open spec fn game_step<R: Random>(g: GameView, action: GameAction, count: Option<u8>, random: &R, h: GameView) -> bool {
    match action {
        GameAction::StartGame => {
            &&& drawn_cast(h.actors, random)
            &&& h == g.placed_as(h.actors).at(GameStates::DoYouWantInstructions)
        },
        GameAction::WaitNextInstruction => h == g.at(GameStates::WaitInstructions),
        GameAction::MoveOrShoot => h == g.at(GameStates::DoYouWantToMoveOrShoot),
        GameAction::Move => h == g.at(GameStates::MoveEnterRoomNumber),
        GameAction::MoveToRoom => match count {
            Some(room) => exists|m: GameView| move_outcome(g, room, random, m) && h == m.settled(),
            None => h == g.at(GameStates::MoveEnterRoomNumber),
        },
        GameAction::Shoot => h == GameView {
            current_arrow_room_count: 0,
            rooms_to_shoot_arrows_in: Seq::empty(),
            ..g.at(GameStates::ShootEnterNumberOfRooms)
        },
        GameAction::ShootNumberOfRooms => match count {
            Some(n) => h == GameView {
                number_of_arrow_rooms: if n > 5 { 5 } else if n == 0 { 1 } else { n },
                ..g.at(GameStates::ShootEnterRoomNumber)
            },
            None => h == g,
        },
        GameAction::ShootRoomNumber => match count {
            Some(room) => {
                let g1 = GameView {
                    current_arrow_room_count: (g.current_arrow_room_count + 1) as u8,
                    rooms_to_shoot_arrows_in: g.rooms_to_shoot_arrows_in.push(room),
                    ..g
                };
                if g1.current_arrow_room_count < g1.number_of_arrow_rooms {
                    h == g1
                } else {
                    exists|m: GameView| shot_outcome(g1, g1.rooms_to_shoot_arrows_in, random, m) && h == m.settled()
                }
            },
            None => h == g,
        },
        GameAction::Restart => h == g.at(GameStates::Restart),
        GameAction::RestartClearAll => {
            &&& drawn_cast(h.actors, random)
            &&& h == g.cleared().placed_as(h.actors).at(GameStates::DoYouWantToMoveOrShoot)
        },
        GameAction::RestartSameSetup => h == g.restored(),
        GameAction::Quit => h == g.at(GameStates::GameOver),
    }
}

/// What `game_action` needs to run without a fault: you and the wumpus
/// placed where you move or shoot, an arrow to shoot, and no overflow of
/// the counters.
pub open spec fn can_act(g: GameView, action: GameAction, count: Option<u8>) -> bool {
    match action {
        GameAction::MoveToRoom => count is Some ==> placed(g.actors, ActorType::You) && placed(g.actors, ActorType::Wumpus),
        GameAction::ShootRoomNumber => count is Some ==> {
            &&& g.current_arrow_room_count < 255
            &&& g.current_arrow_room_count + 1 >= g.number_of_arrow_rooms ==> {
                &&& g.number_of_arrows >= 1
                &&& placed(g.actors, ActorType::You)
                &&& placed(g.actors, ActorType::Wumpus)
            }
        },
        _ => true,
    }
}

/// Every tunnel leads to a room of the cave.
pub proof fn lemma_maze_rooms_valid(room: u8)
    ensures
        valid_room(room) ==> forall|k: int| 0 <= k < 3 ==> valid_room(#[trigger] maze(room)[k]),
{
}

/// Either nobody is placed yet or the whole cast is.
pub open spec fn actors_wf(actors: Seq<Actor>) -> bool {
    actors.len() == 0 || is_cast(actors)
}

impl Game {
    pub fn new() -> (g: Self)
        ensures
            g@ == GameView::initial(),
    {
        Game {
            state: GameStates::GameStart,
            actors: Vec::new(),
            setup: Vec::new(),
            bumped_wumpus: false,
            wumpus_moves: false,
            super_bat_move: false,
            number_of_arrows: 5,
            number_of_arrow_rooms: 0,
            current_arrow_room_count: 0,
            rooms_to_shoot_arrows_in: Vec::new(),
            game_over_reason: GameOverReason::NotDeadYet,
        }
    }

    pub fn clear_state(&mut self)
        ensures
            final(self)@ == old(self)@.cleared(),
    {
        self.state = GameStates::GameStart;
        self.bumped_wumpus = false;
        self.wumpus_moves = false;
        self.super_bat_move = false;
        self.number_of_arrows = 5;
        self.number_of_arrow_rooms = 0;
        self.current_arrow_room_count = 0;
        self.rooms_to_shoot_arrows_in = Vec::new();
        self.game_over_reason = GameOverReason::NotDeadYet;
    }

    pub fn clear_actors(&mut self)
        ensures
            final(self)@ == old(self)@.with_actors(Seq::empty()),
    {
        self.actors = Vec::new();
    }

    pub fn get_game_state(&self) -> (s: GameStates)
        ensures
            s == self@.state,
    {
        self.state
    }

    pub fn get_actors(&self) -> (actors: Vec<Actor>)
        ensures
            actors@ == self@.actors,
    {
        copy_actors(&self.actors)
    }

    pub fn get_game_over_reason(&self) -> (r: GameOverReason)
        ensures
            r == self@.game_over_reason,
    {
        self.game_over_reason
    }

    pub fn moved_by_bat(&self) -> (b: bool)
        ensures
            b == self@.super_bat_move,
    {
        self.super_bat_move
    }

    pub fn bumped_wumpus(&self) -> (b: bool)
        ensures
            b == self@.bumped_wumpus,
    {
        self.bumped_wumpus
    }

    /// The arrows left, the rooms of the arrow's path entered, and the rooms it is to fly.
    pub(crate) fn quiver(&self) -> (q: (u8, u8, u8))
        ensures
            q == (self@.number_of_arrows, self@.current_arrow_room_count, self@.number_of_arrow_rooms),
    {
        (self.number_of_arrows, self.current_arrow_room_count, self.number_of_arrow_rooms)
    }

    pub fn is_all_rooms_entered(&self) -> (b: bool)
        ensures
            b == (self@.current_arrow_room_count == self@.number_of_arrow_rooms),
    {
        self.current_arrow_room_count == self.number_of_arrow_rooms
    }

    /// The index of the first actor of type `actor_type`.
    fn index_of(&self, actor_type: ActorType) -> (i: usize)
        requires
            has_actor(self@.actors, actor_type),
        ensures
            i == first_of(self@.actors, actor_type),
            is_first_of(self@.actors, actor_type, i as int),
    {
        let mut i: usize = 0;
        while i < self.actors.len()
            invariant
                i <= self.actors.len(),
                has_actor(self.actors@, actor_type),
                forall|j: int| 0 <= j < i ==> (#[trigger] self.actors@[j]).actor_type != actor_type,
            decreases self.actors.len() - i,
        {
            if self.actors[i].actor_type == actor_type {
                proof {
                    lemma_first_of(self.actors@, actor_type, i as int);
                }
                return i;
            }
            i = i + 1;
        }
        proof {
            let k = choose|k: int| 0 <= k < self.actors@.len() && (#[trigger] self.actors@[k]).actor_type == actor_type;
            assert(self.actors@[k].actor_type != actor_type);
        }
        vstd::pervasive::unreached()
    }

    /// The first actor of type `actor_type`.
    pub fn get_actor(&self, actor_type: ActorType) -> (a: &Actor)
        requires
            has_actor(self@.actors, actor_type),
        ensures
            *a == actor_of(self@.actors, actor_type),
    {
        let i = self.index_of(actor_type);
        &self.actors[i]
    }

    pub fn get_tunnels_for_actor(&self, actor_type: ActorType) -> (tunnels: [u8; 3])
        requires
            placed(self@.actors, actor_type),
        ensures
            tunnels@ == maze(actor_of(self@.actors, actor_type).room),
    {
        let your_location = self.get_actor(actor_type).room;
        return self.get_tunnels(your_location);
    }

    /// The rooms the tunnels of `room` lead to.
    pub fn get_tunnels(&self, room: u8) -> (tunnels: [u8; 3])
        requires
            valid_room(room),
        ensures
            tunnels@ == maze(room),
    {
        maze_tunnels(room)
    }

    fn is_actor_in_room(&self, actor_type: ActorType, room: u8) -> (b: bool)
        ensures
            b == in_room(self@.actors, actor_type, room),
    {
        let mut i: usize = 0;
        while i < self.actors.len()
            invariant
                i <= self.actors.len(),
                forall|j: int| 0 <= j < i ==> !((#[trigger] self.actors@[j]).actor_type == actor_type && self.actors@[j].room == room),
            decreases self.actors.len() - i,
        {
            if self.actors[i].actor_type == actor_type && self.actors[i].room == room {
                return true;
            }
            i = i + 1;
        }
        return false;
    }


    /// You walk through a tunnel towards `new_room`; where a bat takes you,
    /// it drops you in `bat_room`.
    pub fn move_to(&mut self, new_room: u8, bat_room: u8)
        requires
            placed(old(self)@.actors, ActorType::You),
        ensures
            final(self)@ == old(self)@.moved(new_room, bat_room),
    {
        let ghost g = self@;
        let ghost asked = new_room;
        let mut new_room = new_room;
        // Check if move is legal
        self.bumped_wumpus = false;
        self.super_bat_move = false;
        let tunnels = self.get_tunnels_for_actor(ActorType::You);
        let move_valid = tunnels[0] == new_room || tunnels[1] == new_room || tunnels[2] == new_room;
        assert(move_valid == maze(g.you_room()).contains(asked)) by {
            if maze(g.you_room()).contains(asked) {
                let k = choose|k: int| 0 <= k < 3 && maze(g.you_room())[k] == asked;
                assert(tunnels@[k] == asked);
            }
        }
        if move_valid {
            // Check for dangers
            let bats = self.is_actor_in_room(ActorType::Bat, new_room);
            if bats {
                new_room = bat_room;
                self.super_bat_move = true;
            }
            let pits = self.is_actor_in_room(ActorType::Pit, new_room);
            let wumpus = self.is_actor_in_room(ActorType::Wumpus, new_room);
            if pits {
                self.state = GameStates::GameOver;
                self.game_over_reason = GameOverReason::YouFellIntoPit;
                if wumpus && self.wumpus_moves {
                    self.game_over_reason = GameOverReason::WumpusGotYou;
                    assert(self@ =~= g.moved(asked, bat_room));
                    return;
                } else if wumpus {
                    self.wumpus_moves = true;
                    self.bumped_wumpus = true;
                }
            } else if wumpus {
                self.bumped_wumpus = true;
            }
            self.set_actor_room(ActorType::You, new_room);
        }
        assert(self@ =~= g.moved(asked, bat_room));
    }

    /// You walk through a tunnel towards `new_room`. A bat in that room drops
    /// you in a room from 1 to 20 drawn from `random`; where you bump into
    /// the wumpus, it wakes and takes its step.
    pub fn move_you(&mut self, new_room: u8, random: &impl Random)
        requires
            placed(old(self)@.actors, ActorType::You),
            placed(old(self)@.actors, ActorType::Wumpus),
            random.draws_in(1, 21),
            random.draws_in(1, 101),
            random.draws_in(0, 3),
        ensures
            move_outcome(old(self)@, new_room, random, final(self)@),
    {
        let ghost g = self@;
        let tunnels = self.get_tunnels_for_actor(ActorType::You);
        let move_valid = tunnels[0] == new_room || tunnels[1] == new_room || tunnels[2] == new_room;
        assert(move_valid == maze(g.you_room()).contains(new_room)) by {
            if maze(g.you_room()).contains(new_room) {
                let k = choose|k: int| 0 <= k < 3 && maze(g.you_room())[k] == new_room;
                assert(tunnels@[k] == new_room);
            }
        }
        let bat_room = if move_valid && self.is_actor_in_room(ActorType::Bat, new_room) {
            random.get_random(1..21)
        } else {
            1
        };
        self.move_to(new_room, bat_room);
        let ghost w = self@;
        proof {
            assert(has_actor(g.actors, ActorType::Wumpus));
            assert(has_actor(g.actors, ActorType::You));
            lemma_with_room(g.actors, ActorType::You, w.you_room(), ActorType::Wumpus);
            lemma_with_room(g.actors, ActorType::You, w.you_room(), ActorType::You);
        }
        if self.bumped_wumpus && self.state != GameStates::GameOver {
            proof {
                assert(maze(g.you_room()).contains(new_room));
                let dest = if in_room(g.actors, ActorType::Bat, new_room) { bat_room } else { new_room };
                lemma_with_room(g.actors, ActorType::You, dest, ActorType::Wumpus);
                lemma_with_room(g.actors, ActorType::You, dest, ActorType::You);
                lemma_maze_rooms_valid(g.you_room());
                let k = choose|k: int| 0 <= k < 3 && maze(g.you_room())[k] == new_room;
                assert(valid_room(maze(g.you_room())[k]));
            }
            self.move_wumpus(random);
            proof {
                let (chance, tunnel) = choose|chance: u8, tunnel: u8| wumpus_draws(random, chance, tunnel) && self@ == w.wumpus_moved(chance, tunnel);
                assert(self@ == g.entered(new_room, bat_room, chance, tunnel));
                assert(move_outcome(g, new_room, random, self@));
            }
        } else {
            proof {
                assert(self@ == g.entered(new_room, bat_room, 1, 0));
                assert(move_outcome(g, new_room, random, self@));
            }
        }
    }

    /// The wumpus wakes and stirs: with a `chance` above 25 it takes tunnel
    /// number `tunnel` out of its room, otherwise it stays; then, if it is
    /// where you are, it eats you.
    pub fn wumpus_step(&mut self, chance: u8, tunnel: u8)
        requires
            placed(old(self)@.actors, ActorType::Wumpus),
            placed(old(self)@.actors, ActorType::You),
            tunnel <= 2,
        ensures
            final(self)@ == old(self)@.wumpus_moved(chance, tunnel),
    {
        let ghost g = self@;
        self.wumpus_moves = true;
        let your_location = self.get_actor(ActorType::You).room;
        let wumpus_location = self.get_actor(ActorType::Wumpus).room;
        // Determine if wumpus stays or moves (1/4 stay, 3/4 move)
        let room = if chance > 25 {
            // Get tunnels where wumpus can move
            let tunnels = self.get_tunnels(wumpus_location);
            tunnels[tunnel as usize]
        } else {
            wumpus_location
        };
        if chance > 25 {
            self.set_actor_room(ActorType::Wumpus, room);
        }
        if room == your_location {
            self.state = GameStates::GameOver;
            self.game_over_reason = GameOverReason::WumpusGotYou;
        }
        assert(self@ =~= g.wumpus_moved(chance, tunnel));
    }

    /// The wumpus wakes: it draws its chance from 1 to 100 and, above 25,
    /// one of its three tunnels, and takes its step with them.
    pub fn move_wumpus(&mut self, random: &impl Random)
        requires
            placed(old(self)@.actors, ActorType::Wumpus),
            placed(old(self)@.actors, ActorType::You),
            random.draws_in(1, 101),
            random.draws_in(0, 3),
        ensures
            wumpus_outcome(old(self)@, random, final(self)@),
    {
        let properbility = random.get_random(1..101);
        let tunnel = if properbility > 25 {
            // Select a random tunnel
            random.get_random(0..3)
        } else {
            0
        };
        self.wumpus_step(properbility, tunnel);
    }

    /// Follows an arrow from `arrow_location` along the rooms of `rooms`
    /// from index `i` on: the first room it reaches that is yours or the
    /// wumpus's decides the shot. Where no tunnel leads to a named room, the
    /// arrow takes one of its three tunnels at random.
    fn fly_arrow(
        &self,
        rooms: &Vec<u8>,
        i: usize,
        arrow_location: u8,
        your_location: u8,
        wumpus_location: u8,
        random: &impl Random,
    ) -> (hit: Option<GameOverReason>)
        requires
            valid_room(arrow_location),
            i <= rooms.len(),
            random.draws_in(0, 3),
        ensures
            exists|draws: Seq<u8>| {
                &&& arrow_draws(random, draws)
                &&& draws_cover(arrow_location, rooms@.skip(i as int), your_location, wumpus_location, draws)
                &&& hit == flight(arrow_location, rooms@.skip(i as int), your_location, wumpus_location, draws)
            },
        decreases rooms.len() - i,
    {
        if i >= rooms.len() {
            proof {
                assert(rooms@.skip(i as int).len() == 0);
                assert(arrow_draws(random, Seq::<u8>::empty()));
            }
            return None;
        }
        let room = rooms[i];
        let tunnels = self.get_tunnels(arrow_location);
        let through = tunnels[0] == room || tunnels[1] == room || tunnels[2] == room;
        let ghost path = rooms@.skip(i as int);
        proof {
            assert(path[0] == room);
            assert(path.drop_first() =~= rooms@.skip(i + 1));
            assert(through == maze(arrow_location).contains(room)) by {
                if maze(arrow_location).contains(room) {
                    let k = choose|k: int| 0 <= k < 3 && maze(arrow_location)[k] == room;
                    assert(tunnels@[k] == room);
                }
            }
        }
        let mut draw: u8 = 0;
        let next = if through {
            room
        } else {
            draw = random.get_random(0..3);
            tunnels[draw as usize]
        };
        let ghost used: Seq<u8> = if through { Seq::empty() } else { seq![draw] };
        proof {
            lemma_maze_rooms_valid(arrow_location);
            if through {
                let k = choose|k: int| 0 <= k < 3 && maze(arrow_location)[k] == room;
                assert(valid_room(maze(arrow_location)[k]));
            } else {
                assert(valid_room(maze(arrow_location)[draw as int]));
            }
            assert(next == arrow_step(arrow_location, room, draw));
        }
        if next == your_location {
            proof {
                assert(arrow_draws(random, used));
                assert(!through ==> used[0] == draw);
            }
            Some(GameOverReason::YouShotYourself)
        } else if next == wumpus_location {
            proof {
                assert(arrow_draws(random, used));
                assert(!through ==> used[0] == draw);
            }
            Some(GameOverReason::YouShotWumpus)
        } else {
            let hit = self.fly_arrow(rooms, i + 1, next, your_location, wumpus_location, random);
            proof {
                let rest = choose|rest: Seq<u8>| {
                    &&& arrow_draws(random, rest)
                    &&& draws_cover(next, rooms@.skip(i + 1), your_location, wumpus_location, rest)
                    &&& hit == flight(next, rooms@.skip(i + 1), your_location, wumpus_location, rest)
                };
                let d = used + rest;
                assert(arrow_draws(random, d)) by {
                    assert forall|k: int| 0 <= k < d.len() implies #[trigger] d[k] <= 2 && random.may_draw(0, 3, d[k]) by {
                        if k < used.len() {
                            assert(d[k] == draw);
                        } else {
                            assert(d[k] == rest[k - used.len()]);
                        }
                    }
                }
                if through {
                    assert(d =~= rest);
                } else {
                    assert(d[0] == draw);
                    assert(d.drop_first() =~= rest);
                }
                assert(hit == flight(arrow_location, path, your_location, wumpus_location, d));
                assert(draws_cover(arrow_location, path, your_location, wumpus_location, d));
            }
            hit
        }
    }

    /// Shoots an arrow along `rooms`. A hit ends the game; after a miss the
    /// wumpus wakes and takes its step, and with the quiver then empty the
    /// game is lost.
    pub fn shoot(&mut self, rooms: Vec<u8>, random: &impl Random)
        requires
            old(self)@.number_of_arrows >= 1,
            placed(old(self)@.actors, ActorType::You),
            placed(old(self)@.actors, ActorType::Wumpus),
            random.draws_in(1, 101),
            random.draws_in(0, 3),
        ensures
            shot_outcome(old(self)@, rooms@, random, final(self)@),
    {
        let ghost g = self@;
        // Check ammo
        self.number_of_arrows -= 1;
        let your_location = self.get_actor(ActorType::You).room;
        let wumpus_location = self.get_actor(ActorType::Wumpus).room;
        let hit = self.fly_arrow(&rooms, 0, your_location, your_location, wumpus_location, random);
        let ghost draws = choose|draws: Seq<u8>| {
            &&& arrow_draws(random, draws)
            &&& draws_cover(your_location, rooms@.skip(0), your_location, wumpus_location, draws)
            &&& hit == flight(your_location, rooms@.skip(0), your_location, wumpus_location, draws)
        };
        proof {
            assert(rooms@.skip(0) =~= rooms@);
        }
        match hit {
            Some(reason) => {
                self.state = GameStates::GameOver;
                self.game_over_reason = reason;
                proof {
                    assert(self@ =~= g.shot(rooms@, draws, 1, 0));
                    assert(shot_draws(g, rooms@, random, draws, 1, 0));
                }
            },
            None => {
                let ghost g1 = self@;
                // When You have fired a shot Wumpus starts moving
                self.move_wumpus(random);
                let ghost g2 = self@;
                if self.state != GameStates::GameOver && self.number_of_arrows == 0 {
                    self.state = GameStates::GameOver;
                    self.game_over_reason = GameOverReason::YouAreOutOfArrows;
                }
                proof {
                    let (chance, tunnel) = choose|chance: u8, tunnel: u8| wumpus_draws(random, chance, tunnel) && g2 == g1.wumpus_moved(chance, tunnel);
                    assert(g1 == GameView { number_of_arrows: (g.number_of_arrows - 1) as u8, ..g });
                    assert(self@ =~= g.shot(rooms@, draws, chance, tunnel));
                    assert(shot_draws(g, rooms@, random, draws, chance, tunnel));
                }
            },
        }
    }

    /// The hazards in the rooms your tunnels lead to.
    pub fn dangers_nearby(&self) -> (dangers: Vec<&Actor>)
        requires
            placed(self@.actors, ActorType::You),
        ensures
            dangers@.len() == self@.dangers().len(),
            forall|i: int| 0 <= i < dangers@.len() ==> *(#[trigger] dangers@[i]) == self@.dangers()[i],
    {
        let your_location = self.get_actor(ActorType::You).room;
        let tunnels: [u8; 3] = maze_tunnels(your_location);
        let ghost pred = |a: Actor| maze(self@.you_room()).contains(a.room) && a.actor_type != ActorType::You;
        let mut dangerous_actors: Vec<&Actor> = Vec::new();
        let mut i: usize = 0;
        while i < self.actors.len()
            invariant
                i <= self.actors.len(),
                tunnels@ == maze(self@.you_room()),
                pred == (|a: Actor| maze(self@.you_room()).contains(a.room) && a.actor_type != ActorType::You),
                dangerous_actors@.len() == self.actors@.take(i as int).filter(pred).len(),
                forall|k: int| 0 <= k < dangerous_actors@.len() ==> *(#[trigger] dangerous_actors@[k]) == self.actors@.take(i as int).filter(pred)[k],
            decreases self.actors.len() - i,
        {
            let x = &self.actors[i];
            let found = (tunnels[0] == x.room || tunnels[1] == x.room || tunnels[2] == x.room) && (
            x.actor_type == ActorType::Bat || x.actor_type == ActorType::Pit || x.actor_type == ActorType::Wumpus);
            proof {
                reveal_with_fuel(Seq::<_>::filter, 1);
                assert(self.actors@.take(i + 1).drop_last() =~= self.actors@.take(i as int));
                assert(found == pred(self.actors@[i as int])) by {
                    if maze(self@.you_room()).contains(x.room) {
                        let k = choose|k: int| 0 <= k < 3 && maze(self@.you_room())[k] == x.room;
                        assert(tunnels@[k] == x.room);
                    }
                }
            }
            if found {
                dangerous_actors.push(x);
            }
            i = i + 1;
        }
        assert(self.actors@.take(self.actors@.len() as int) =~= self.actors@);
        return dangerous_actors;
    }


    /// Carries out one action of the dialogue. `action_count` is the number
    /// that goes with it: a room to move to, a number of rooms for the
    /// arrow, or one room of its path.
    pub fn game_action(&mut self, action: GameAction, action_count: Option<u8>, random: &impl Random)
        requires
            can_act(old(self)@, action, action_count),
            fit_for_game(random),
        ensures
            game_step(old(self)@, action, action_count, random, final(self)@),
    {
        let ghost g = self@;
        match action {
            GameAction::StartGame => {
                self.start_game(random);
            },
            GameAction::WaitNextInstruction => {
                self.state = GameStates::WaitInstructions
            },
            GameAction::MoveOrShoot => {
                self.state = GameStates::DoYouWantToMoveOrShoot
            },
            GameAction::Move => {
                self.state = GameStates::MoveEnterRoomNumber
            },
            GameAction::MoveToRoom => {
                match action_count {
                    Some(room_number) => {
                        self.move_you(room_number, random);
                        let ghost m = self@;
                        if self.state != GameStates::GameOver {
                            self.state = GameStates::DoYouWantToMoveOrShoot;
                        }
                        assert(self@ =~= m.settled());
                    },
                    None => {
                        self.state = GameStates::MoveEnterRoomNumber;
                    },
                }
            },
            GameAction::Shoot => {
                self.state = GameStates::ShootEnterNumberOfRooms;
                self.current_arrow_room_count = 0;
                self.rooms_to_shoot_arrows_in = Vec::new();
            },
            GameAction::ShootNumberOfRooms => {
                match action_count {
                    Some(number_of_rooms) => {
                        if number_of_rooms > 5 {
                            self.number_of_arrow_rooms = 5;
                        } else if number_of_rooms == 0 {
                            self.number_of_arrow_rooms = 1;
                        } else {
                            self.number_of_arrow_rooms = number_of_rooms;
                        }
                        self.state = GameStates::ShootEnterRoomNumber;
                    },
                    None => {},
                }
            },
            GameAction::ShootRoomNumber => {
                match action_count {
                    Some(room_number) => {
                        self.current_arrow_room_count += 1;
                        if self.current_arrow_room_count < self.number_of_arrow_rooms {
                            self.rooms_to_shoot_arrows_in.push(room_number);
                        } else {
                            self.rooms_to_shoot_arrows_in.push(room_number);
                            // Make a copy to get ownership
                            let mut rooms: Vec<u8> = Vec::new();
                            for k in 0..self.rooms_to_shoot_arrows_in.len()
                                invariant
                                    rooms@ == self.rooms_to_shoot_arrows_in@.take(k as int),
                            {
                                rooms.push(self.rooms_to_shoot_arrows_in[k]);
                                assert(rooms@ =~= self.rooms_to_shoot_arrows_in@.take(k + 1));
                            }
                            assert(rooms@ =~= self.rooms_to_shoot_arrows_in@);
                            let ghost g1 = self@;
                            self.shoot(rooms, random);
                            let ghost m = self@;
                            if self.state != GameStates::GameOver {
                                self.state = GameStates::DoYouWantToMoveOrShoot;
                            }
                            assert(self@ =~= m.settled());
                        }
                    },
                    None => {},
                }
            },
            GameAction::Restart => {
                self.state = GameStates::Restart
            },
            GameAction::RestartClearAll => {
                self.clear_state();
                self.clear_actors();
                self.actors = place_actors(random);
                self.setup = copy_actors(&self.actors);
                self.state = GameStates::DoYouWantToMoveOrShoot;
            },
            GameAction::RestartSameSetup => {
                self.clear_state();
                self.actors = copy_actors(&self.setup);
                self.state = GameStates::DoYouWantToMoveOrShoot;
            },
            GameAction::Quit => {
                self.state = GameStates::GameOver;
            },
        };
    }

    fn start_game(&mut self, random: &impl Random)
        requires
            random.shuffles((MAX_ROOMS - 1) as nat),
        ensures
            drawn_cast(final(self)@.actors, random),
            final(self)@ == old(self)@.placed_as(final(self)@.actors).at(GameStates::DoYouWantInstructions),
    {
        self.actors = place_actors(random);
        self.setup = copy_actors(&self.actors);
        self.state = GameStates::DoYouWantInstructions
    }

    /// Moves the first actor of type `actor_type` to `room`.
    fn set_actor_room(&mut self, actor_type: ActorType, room: u8)
        requires
            has_actor(old(self)@.actors, actor_type),
        ensures
            final(self)@ == old(self)@.with_actors(with_room(old(self)@.actors, actor_type, room)),
    {
        let index = self.index_of(actor_type);
        self.actors.set(index, Actor { actor_type, room });
    }
}

/// A copy of a list of actors.
fn copy_actors(actors: &Vec<Actor>) -> (c: Vec<Actor>)
    ensures
        c@ == actors@,
{
    let mut c: Vec<Actor> = Vec::new();
    for i in 0..actors.len()
        invariant
            c@ == actors@.take(i as int),
    {
        c.push(actors[i]);
        assert(c@ =~= actors@.take(i + 1));
    }
    assert(actors@.take(actors@.len() as int) =~= actors@);
    c
}

} // verus!
