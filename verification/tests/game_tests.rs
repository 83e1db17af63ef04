use std::cell::RefCell;
use std::ops::Range;

use wumpus::game::actor::{cast_in, place_actors, Actor, ActorType};
use wumpus::game::constants::{maze_tunnels, GameAction, GameOverReason, GameStates, MAX_ROOMS};
use wumpus::game::game::Game;
use wumpus::random::{OsRandom, Random};

/// A source of randomness that plays back chosen numbers and a chosen order of rooms.
struct Script {
    draws: RefCell<Vec<u8>>,
    rooms: Vec<u8>,
}

impl Script {
    fn new(rooms: &[u8], draws: &[u8]) -> Script {
        let mut all: Vec<u8> = rooms.to_vec();
        for r in 1..MAX_ROOMS {
            if !all.contains(&r) {
                all.push(r);
            }
        }
        Script { draws: RefCell::new(draws.to_vec()), rooms: all }
    }

    fn left(&self) -> usize {
        self.draws.borrow().len()
    }
}

impl Random for Script {
    fn get_random(&self, range: Range<u8>) -> u8 {
        let v = self.draws.borrow_mut().remove(0);
        assert!(range.start <= v && v < range.end);
        v
    }

    fn shuffle(&self, vector: Vec<u8>) -> Vec<u8> {
        assert_eq!(vector.len(), self.rooms.len());
        self.rooms.clone()
    }
}

/// You in 1; pits in 2 and 14; bats in 5 and 17; the wumpus in 8.
fn cave_around_room_one() -> Script {
    Script::new(&[1, 2, 14, 5, 17, 8], &[])
}

fn started(script: &Script) -> Game {
    let mut game = Game::new();
    game.game_action(GameAction::StartGame, None, script);
    game
}

fn room_of(game: &Game, t: ActorType) -> u8 {
    game.get_actor(t).room
}

#[test]
fn new_game_has_five_arrows_and_nobody_placed() {
    let game = Game::new();
    assert_eq!(game.get_game_state(), GameStates::GameStart);
    assert_eq!(game.get_game_over_reason(), GameOverReason::NotDeadYet);
    assert_eq!(game.number_of_arrows, 5);
    assert!(game.get_actors().is_empty());
    assert!(!game.moved_by_bat());
    assert!(!game.bumped_wumpus());
    assert!(game.is_all_rooms_entered());
}

#[test]
fn place_actors_puts_the_cast_in_order() {
    let script = cave_around_room_one();
    let actors = place_actors(&script);
    let expected = vec![
        Actor { actor_type: ActorType::You, room: 1 },
        Actor { actor_type: ActorType::Pit, room: 2 },
        Actor { actor_type: ActorType::Pit, room: 14 },
        Actor { actor_type: ActorType::Bat, room: 5 },
        Actor { actor_type: ActorType::Bat, room: 17 },
        Actor { actor_type: ActorType::Wumpus, room: 8 },
    ];
    assert_eq!(actors, expected);
}

#[test]
fn place_actors_with_os_random_uses_distinct_rooms_below_twenty() {
    let random = OsRandom::new();
    for _ in 0..50 {
        let actors = place_actors(&random);
        assert_eq!(actors.len(), 6);
        let types: Vec<ActorType> = actors.iter().map(|a| a.actor_type).collect();
        assert_eq!(
            types,
            vec![ActorType::You, ActorType::Pit, ActorType::Pit, ActorType::Bat, ActorType::Bat, ActorType::Wumpus]
        );
        for (i, a) in actors.iter().enumerate() {
            assert!(1 <= a.room && a.room < MAX_ROOMS);
            for b in actors.iter().skip(i + 1) {
                assert_ne!(a.room, b.room);
            }
        }
    }
}

#[test]
fn tunnels_of_the_dodecahedron() {
    assert_eq!(maze_tunnels(1), [2, 5, 8]);
    assert_eq!(maze_tunnels(13), [12, 14, 20]);
    assert_eq!(maze_tunnels(20), [13, 16, 19]);
    let game = Game::new();
    assert_eq!(game.get_tunnels(7), [6, 8, 17]);
}

#[test]
fn every_tunnel_can_be_walked_back() {
    for a in 1..=20u8 {
        let ta = maze_tunnels(a);
        assert!(!ta.contains(&a));
        assert!(ta[0] != ta[1] && ta[1] != ta[2] && ta[0] != ta[2]);
        for b in ta {
            assert!((1..=20).contains(&b));
            assert!(maze_tunnels(b).contains(&a));
        }
    }
}

#[test]
fn start_game_places_the_cast_and_asks_about_instructions() {
    let script = cave_around_room_one();
    let game = started(&script);
    assert_eq!(game.get_game_state(), GameStates::DoYouWantInstructions);
    assert_eq!(room_of(&game, ActorType::You), 1);
    assert_eq!(room_of(&game, ActorType::Wumpus), 8);
    assert_eq!(game.get_tunnels_for_actor(ActorType::You), [2, 5, 8]);
    assert_eq!(game.get_tunnels_for_actor(ActorType::Wumpus), [1, 7, 9]);
}

#[test]
fn dangers_nearby_lists_adjacent_hazards_in_cast_order() {
    let script = cave_around_room_one();
    let game = started(&script);
    let dangers: Vec<Actor> = game.dangers_nearby().into_iter().copied().collect();
    assert_eq!(
        dangers,
        vec![
            Actor { actor_type: ActorType::Pit, room: 2 },
            Actor { actor_type: ActorType::Bat, room: 5 },
            Actor { actor_type: ActorType::Wumpus, room: 8 },
        ]
    );
}

#[test]
fn no_dangers_far_from_the_hazards() {
    // You in 10; hazards away from 2, 9 and 11.
    let script = Script::new(&[10, 3, 4, 6, 7, 13], &[]);
    let game = started(&script);
    assert!(game.dangers_nearby().is_empty());
}

#[test]
fn move_without_a_tunnel_changes_nothing() {
    let script = cave_around_room_one();
    let mut game = started(&script);
    let before = game.get_actors();
    game.move_you(3, &script);
    assert_eq!(game.get_actors(), before);
    assert_eq!(game.get_game_state(), GameStates::DoYouWantInstructions);
    assert!(!game.moved_by_bat());
}

#[test]
fn move_into_a_pit_ends_the_game() {
    let script = cave_around_room_one();
    let mut game = started(&script);
    game.move_you(2, &script);
    assert_eq!(game.get_game_state(), GameStates::GameOver);
    assert_eq!(game.get_game_over_reason(), GameOverReason::YouFellIntoPit);
    // You still fall into the room.
    assert_eq!(room_of(&game, ActorType::You), 2);
}

#[test]
fn a_bat_carries_you_off() {
    let script = Script::new(&[1, 2, 14, 5, 17, 8], &[11]);
    let mut game = started(&script);
    game.move_you(5, &script);
    assert!(game.moved_by_bat());
    assert_eq!(room_of(&game, ActorType::You), 11);
    assert_eq!(game.get_game_state(), GameStates::DoYouWantInstructions);
    assert_eq!(script.left(), 0);
}

#[test]
fn a_bat_can_drop_you_into_a_pit() {
    let script = Script::new(&[1, 2, 14, 5, 17, 8], &[14]);
    let mut game = started(&script);
    game.move_you(5, &script);
    assert_eq!(game.get_game_over_reason(), GameOverReason::YouFellIntoPit);
    assert_eq!(room_of(&game, ActorType::You), 14);
}

#[test]
fn bumping_the_wumpus_wakes_it_and_it_moves_on() {
    // Chance 26: the wumpus takes its tunnel 2, from 8 to 9.
    let script = Script::new(&[1, 2, 14, 5, 17, 8], &[26, 2]);
    let mut game = started(&script);
    game.move_you(8, &script);
    assert!(game.bumped_wumpus());
    assert_eq!(room_of(&game, ActorType::You), 8);
    assert_eq!(room_of(&game, ActorType::Wumpus), 9);
    assert_ne!(game.get_game_state(), GameStates::GameOver);
    assert_eq!(script.left(), 0);
    // Walking into its new room wakes it again; this time it stays and eats you.
    let script = Script::new(&[], &[25]);
    game.move_you(9, &script);
    assert!(game.bumped_wumpus());
    assert_eq!(room_of(&game, ActorType::You), 9);
    assert_eq!(game.get_game_state(), GameStates::GameOver);
    assert_eq!(game.get_game_over_reason(), GameOverReason::WumpusGotYou);
}

#[test]
fn a_bumped_wumpus_that_stays_eats_you() {
    let script = Script::new(&[1, 2, 14, 5, 17, 8], &[25]);
    let mut game = started(&script);
    game.move_you(8, &script);
    assert!(game.bumped_wumpus());
    assert_eq!(room_of(&game, ActorType::You), 8);
    assert_eq!(room_of(&game, ActorType::Wumpus), 8);
    assert_eq!(game.get_game_state(), GameStates::GameOver);
    assert_eq!(game.get_game_over_reason(), GameOverReason::WumpusGotYou);
}

#[test]
fn move_to_room_action_asks_again_after_a_safe_move() {
    // Bumping the wumpus in 8 sends it through tunnel 1 to 7.
    let script = Script::new(&[1, 2, 14, 5, 17, 8], &[26, 1]);
    let mut game = started(&script);
    game.game_action(GameAction::MoveToRoom, None, &script);
    assert_eq!(game.get_game_state(), GameStates::MoveEnterRoomNumber);
    game.game_action(GameAction::MoveToRoom, Some(8), &script);
    assert_eq!(game.get_game_state(), GameStates::DoYouWantToMoveOrShoot);
    game.game_action(GameAction::MoveToRoom, Some(2), &script);
    assert_eq!(game.get_game_state(), GameStates::DoYouWantToMoveOrShoot);
    assert_eq!(room_of(&game, ActorType::You), 8);
}

#[test]
fn the_wumpus_stays_on_a_low_chance() {
    let script = Script::new(&[1, 2, 14, 5, 17, 8], &[25]);
    let mut game = started(&script);
    game.move_wumpus(&script);
    assert_eq!(room_of(&game, ActorType::Wumpus), 8);
    assert_eq!(script.left(), 0);
}

#[test]
fn the_wumpus_moves_through_a_tunnel() {
    let script = Script::new(&[1, 2, 14, 5, 17, 8], &[26, 2]);
    let mut game = started(&script);
    game.move_wumpus(&script);
    assert_eq!(room_of(&game, ActorType::Wumpus), 9);
}

#[test]
fn the_wumpus_walking_into_you_ends_the_game() {
    let script = Script::new(&[1, 2, 14, 5, 17, 8], &[100, 0]);
    let mut game = started(&script);
    game.move_wumpus(&script);
    assert_eq!(game.get_game_state(), GameStates::GameOver);
    assert_eq!(game.get_game_over_reason(), GameOverReason::WumpusGotYou);
    assert_eq!(room_of(&game, ActorType::Wumpus), 1);
}

#[test]
fn shooting_the_wumpus_wins() {
    let script = Script::new(&[1, 2, 14, 5, 17, 8], &[1]);
    let mut game = started(&script);
    game.shoot(vec![8], &script);
    assert_eq!(game.number_of_arrows, 4);
    assert_eq!(game.get_game_state(), GameStates::GameOver);
    assert_eq!(game.get_game_over_reason(), GameOverReason::YouShotWumpus);
    // A hit wins at once: the wumpus takes no step.
    assert_eq!(script.left(), 1);
    assert_eq!(room_of(&game, ActorType::Wumpus), 8);
}

#[test]
fn an_arrow_is_scored_on_the_room_it_reaches() {
    // Room 7 holds the wumpus and is not next to room 1: the arrow takes
    // tunnel 1 to room 5 and misses.
    let script = Script::new(&[1, 2, 14, 5, 17, 7], &[1, 1]);
    let mut game = started(&script);
    game.shoot(vec![7], &script);
    assert_ne!(game.get_game_over_reason(), GameOverReason::YouShotWumpus);
    assert_ne!(game.get_game_state(), GameStates::GameOver);
    assert_eq!(script.left(), 0);
}

#[test]
fn a_wumpus_that_stays_in_your_room_eats_you() {
    let script = cave_around_room_one();
    let mut game = started(&script);
    // The wumpus walks from 8 into your room 1 and eats you.
    game.wumpus_step(26, 0);
    assert_eq!(game.get_game_over_reason(), GameOverReason::WumpusGotYou);
    // In a fresh game: you walk into the wumpus, it moves on, then stays.
    let mut game = started(&script);
    game.move_to(8, 1);
    game.wumpus_step(10, 0);
    assert_eq!(game.get_game_state(), GameStates::GameOver);
    assert_eq!(game.get_game_over_reason(), GameOverReason::WumpusGotYou);
}

#[test]
fn shooting_yourself_loses() {
    // The arrow goes from 1 to 5 and back to 1.
    let script = Script::new(&[1, 2, 14, 5, 17, 8], &[]);
    let mut game = started(&script);
    game.shoot(vec![5, 1], &script);
    assert_eq!(game.get_game_over_reason(), GameOverReason::YouShotYourself);
}

#[test]
fn an_arrow_without_a_tunnel_goes_at_random_and_misses() {
    // 12 is not next to 1: the arrow takes tunnel 0 to room 2, then flies on to 3.
    let script = Script::new(&[1, 2, 14, 5, 17, 8], &[0, 1]);
    let mut game = started(&script);
    game.shoot(vec![12, 3], &script);
    assert_eq!(game.number_of_arrows, 4);
    assert_ne!(game.get_game_state(), GameStates::GameOver);
    assert_eq!(script.left(), 0);
}

#[test]
fn the_fifth_arrow_flies_and_can_win() {
    let script = Script::new(&[1, 2, 14, 5, 17, 8], &[1, 1, 1, 1]);
    let mut game = started(&script);
    for left in (1..5).rev() {
        game.shoot(vec![2], &script);
        assert_eq!(game.number_of_arrows, left);
        assert_ne!(game.get_game_state(), GameStates::GameOver);
    }
    game.shoot(vec![8], &script);
    assert_eq!(game.number_of_arrows, 0);
    assert_eq!(game.get_game_over_reason(), GameOverReason::YouShotWumpus);
}

#[test]
fn a_fifth_arrow_that_misses_loses_the_game() {
    let script = Script::new(&[1, 2, 14, 5, 17, 8], &[1, 1, 1, 1, 1]);
    let mut game = started(&script);
    for _ in 0..5 {
        game.shoot(vec![2], &script);
    }
    assert_eq!(game.number_of_arrows, 0);
    assert_eq!(game.get_game_state(), GameStates::GameOver);
    assert_eq!(game.get_game_over_reason(), GameOverReason::YouAreOutOfArrows);
    assert_eq!(script.left(), 0);
}

#[test]
fn number_of_arrow_rooms_is_at_most_five() {
    let script = cave_around_room_one();
    let mut game = started(&script);
    game.game_action(GameAction::Shoot, None, &script);
    assert_eq!(game.get_game_state(), GameStates::ShootEnterNumberOfRooms);
    game.game_action(GameAction::ShootNumberOfRooms, Some(9), &script);
    assert_eq!(game.number_of_arrow_rooms, 5);
    assert_eq!(game.get_game_state(), GameStates::ShootEnterRoomNumber);
    game.game_action(GameAction::ShootNumberOfRooms, Some(3), &script);
    assert_eq!(game.number_of_arrow_rooms, 3);
    game.game_action(GameAction::ShootNumberOfRooms, None, &script);
    assert_eq!(game.number_of_arrow_rooms, 3);
}

#[test]
fn the_arrow_flies_once_all_rooms_are_named() {
    let script = Script::new(&[1, 2, 14, 5, 17, 8], &[1]);
    let mut game = started(&script);
    game.game_action(GameAction::Shoot, None, &script);
    game.game_action(GameAction::ShootNumberOfRooms, Some(2), &script);
    game.game_action(GameAction::ShootRoomNumber, Some(5), &script);
    assert_eq!(game.current_arrow_room_count, 1);
    assert!(!game.is_all_rooms_entered());
    assert_eq!(game.rooms_to_shoot_arrows_in, vec![5]);
    assert_eq!(game.number_of_arrows, 5);
    game.game_action(GameAction::ShootRoomNumber, Some(6), &script);
    assert!(game.is_all_rooms_entered());
    assert_eq!(game.rooms_to_shoot_arrows_in, vec![5, 6]);
    assert_eq!(game.number_of_arrows, 4);
    assert_eq!(game.get_game_state(), GameStates::DoYouWantToMoveOrShoot);
}

#[test]
fn restart_with_the_same_set_up_restores_the_placement() {
    let script = Script::new(&[1, 2, 14, 5, 17, 8], &[26, 2]);
    let mut game = started(&script);
    let cast = game.get_actors();
    // You walk into the wumpus's room, and it moves on to 9.
    game.move_you(8, &script);
    assert_eq!(room_of(&game, ActorType::You), 8);
    assert_eq!(room_of(&game, ActorType::Wumpus), 9);
    game.game_action(GameAction::Restart, None, &script);
    assert_eq!(game.get_game_state(), GameStates::Restart);
    game.game_action(GameAction::RestartSameSetup, None, &script);
    assert_eq!(game.get_actors(), cast);
    assert_eq!(game.number_of_arrows, 5);
    assert_eq!(game.get_game_over_reason(), GameOverReason::NotDeadYet);
    assert_eq!(game.get_game_state(), GameStates::DoYouWantToMoveOrShoot);
}

#[test]
fn restart_clear_all_places_a_new_cast() {
    let script = cave_around_room_one();
    let mut game = started(&script);
    game.move_you(2, &script);
    let other = Script::new(&[10, 3, 4, 6, 7, 13], &[]);
    game.game_action(GameAction::RestartClearAll, None, &other);
    assert_eq!(room_of(&game, ActorType::You), 10);
    assert_eq!(game.get_game_state(), GameStates::DoYouWantToMoveOrShoot);
    assert_eq!(game.get_game_over_reason(), GameOverReason::NotDeadYet);
}

#[test]
fn clear_state_and_clear_actors() {
    let script = Script::new(&[1, 2, 14, 5, 17, 8], &[26, 2]);
    let mut game = started(&script);
    game.move_you(8, &script);
    game.number_of_arrows = 2;
    game.clear_state();
    assert_eq!(game.get_game_state(), GameStates::GameStart);
    assert_eq!(game.number_of_arrows, 5);
    assert!(!game.bumped_wumpus());
    assert_eq!(game.get_actors().len(), 6);
    game.clear_actors();
    assert!(game.get_actors().is_empty());
}

#[test]
fn simple_state_changes() {
    let script = cave_around_room_one();
    let mut game = started(&script);
    game.game_action(GameAction::WaitNextInstruction, None, &script);
    assert_eq!(game.get_game_state(), GameStates::WaitInstructions);
    game.game_action(GameAction::MoveOrShoot, None, &script);
    assert_eq!(game.get_game_state(), GameStates::DoYouWantToMoveOrShoot);
    game.game_action(GameAction::Move, None, &script);
    assert_eq!(game.get_game_state(), GameStates::MoveEnterRoomNumber);
    game.game_action(GameAction::Restart, None, &script);
    assert_eq!(game.get_game_state(), GameStates::Restart);
}


#[test]
fn cast_in_takes_the_first_six_rooms() {
    let actors = cast_in(&vec![7, 3, 9, 1, 2, 4, 5]);
    let expected = vec![
        Actor { actor_type: ActorType::You, room: 7 },
        Actor { actor_type: ActorType::Pit, room: 3 },
        Actor { actor_type: ActorType::Pit, room: 9 },
        Actor { actor_type: ActorType::Bat, room: 1 },
        Actor { actor_type: ActorType::Bat, room: 2 },
        Actor { actor_type: ActorType::Wumpus, room: 4 },
    ];
    assert_eq!(actors, expected);
}

#[test]
fn place_actors_from_the_system_source_uses_six_different_rooms() {
    let random = OsRandom::new();
    for _ in 0..50 {
        let actors = place_actors(&random);
        assert_eq!(actors.len(), 6);
        for i in 0..6 {
            assert!(1 <= actors[i].room && actors[i].room < MAX_ROOMS);
            for j in (i + 1)..6 {
                assert_ne!(actors[i].room, actors[j].room);
            }
        }
    }
}

#[test]
fn move_to_drops_you_where_the_bat_says() {
    let script = cave_around_room_one();
    let mut game = started(&script);
    game.move_to(5, 11);
    assert!(game.moved_by_bat());
    assert_eq!(room_of(&game, ActorType::You), 11);
    assert_ne!(game.get_game_state(), GameStates::GameOver);
}

#[test]
fn move_to_without_a_bat_ignores_the_drop_room() {
    let script = cave_around_room_one();
    let mut game = started(&script);
    game.move_to(8, 11);
    assert!(!game.moved_by_bat());
    assert!(game.bumped_wumpus());
    assert_eq!(room_of(&game, ActorType::You), 8);
}

#[test]
fn wumpus_step_stays_on_25_and_moves_on_26() {
    let script = cave_around_room_one();
    let mut game = started(&script);
    game.wumpus_step(25, 2);
    assert_eq!(room_of(&game, ActorType::Wumpus), 8);
    game.wumpus_step(26, 2);
    assert_eq!(room_of(&game, ActorType::Wumpus), 9);
    assert_ne!(game.get_game_state(), GameStates::GameOver);
}

#[test]
fn wumpus_step_into_your_room_ends_the_game() {
    let script = cave_around_room_one();
    let mut game = started(&script);
    // Tunnel 0 of room 8 leads to room 1, where you are.
    game.wumpus_step(90, 0);
    assert_eq!(game.get_game_state(), GameStates::GameOver);
    assert_eq!(game.get_game_over_reason(), GameOverReason::WumpusGotYou);
    assert_eq!(room_of(&game, ActorType::Wumpus), 1);
}

#[test]
fn the_arrow_flies_when_the_last_room_is_entered() {
    let script = Script::new(&[1, 2, 14, 5, 17, 8], &[1]);
    let mut game = started(&script);
    game.game_action(GameAction::Shoot, None, &script);
    game.game_action(GameAction::ShootNumberOfRooms, Some(3), &script);
    game.game_action(GameAction::ShootRoomNumber, Some(2), &script);
    assert!(!game.is_all_rooms_entered());
    assert_eq!(game.number_of_arrows, 5);
    game.game_action(GameAction::ShootRoomNumber, Some(3), &script);
    assert!(!game.is_all_rooms_entered());
    assert_eq!(game.number_of_arrows, 5);
    assert_eq!(game.get_game_state(), GameStates::ShootEnterRoomNumber);
    game.game_action(GameAction::ShootRoomNumber, Some(4), &script);
    assert!(game.is_all_rooms_entered());
    assert_eq!(game.number_of_arrows, 4);
    assert_eq!(game.rooms_to_shoot_arrows_in, vec![2, 3, 4]);
    assert_eq!(game.get_game_state(), GameStates::DoYouWantToMoveOrShoot);
    assert_eq!(script.left(), 0);
}

#[test]
fn quitting_ends_the_game() {
    let script = cave_around_room_one();
    let mut game = started(&script);
    game.game_action(GameAction::Restart, None, &script);
    game.game_action(GameAction::Quit, None, &script);
    assert_eq!(game.get_game_state(), GameStates::GameOver);
}

#[test]
fn zero_arrow_rooms_count_as_one() {
    let script = Script::new(&[1, 2, 14, 5, 17, 8], &[1]);
    let mut game = started(&script);
    game.game_action(GameAction::Shoot, None, &script);
    game.game_action(GameAction::ShootNumberOfRooms, Some(0), &script);
    assert_eq!(game.number_of_arrow_rooms, 1);
    game.game_action(GameAction::ShootRoomNumber, Some(2), &script);
    assert!(game.is_all_rooms_entered());
    assert_eq!(game.number_of_arrows, 4);
}

#[test]
fn an_awake_wumpus_in_a_pit_room_gets_you_at_the_door() {
    // The wumpus in 3 wakes and walks through tunnel 0 into the pit room 2.
    let script = Script::new(&[1, 2, 14, 5, 17, 3], &[]);
    let mut game = started(&script);
    game.wumpus_step(26, 0);
    assert_eq!(room_of(&game, ActorType::Wumpus), 2);
    assert_ne!(game.get_game_state(), GameStates::GameOver);
    game.move_you(2, &script);
    assert_eq!(game.get_game_state(), GameStates::GameOver);
    assert_eq!(game.get_game_over_reason(), GameOverReason::WumpusGotYou);
    assert_eq!(room_of(&game, ActorType::You), 1);
}
