use std::cell::RefCell;
use std::ops::Range;

use wumpus::game::constants::{GameOverReason, GameStates, MAX_ROOMS};
use wumpus::random::Random;
use wumpus::textgame::instructions::{instruction_line, INSTRUCTION_LINES};
use wumpus::textgame::text::{contains_text, is_char, read_answer, u8_text};
use wumpus::textgame::textgame::TextGame;

struct Script {
    draws: RefCell<Vec<u8>>,
    rooms: Vec<u8>,
}

impl Script {
    fn new(rooms: &[u8], draws: &[u8]) -> Script {
        let mut all: Vec<u8> = rooms.to_vec();
        for r in 1..MAX_ROOMS {
            if !all.contains(&r) {
                all.push(r);
            }
        }
        Script { draws: RefCell::new(draws.to_vec()), rooms: all }
    }
}

impl Random for Script {
    fn get_random(&self, range: Range<u8>) -> u8 {
        let v = self.draws.borrow_mut().remove(0);
        assert!(range.start <= v && v < range.end);
        v
    }

    fn shuffle(&self, vector: Vec<u8>) -> Vec<u8> {
        assert_eq!(vector.len(), self.rooms.len());
        self.rooms.clone()
    }
}

/// You in 1; pits in 2 and 14; bats in 5 and 17; the wumpus in 8.
fn script(draws: &[u8]) -> Script {
    Script::new(&[1, 2, 14, 5, 17, 8], draws)
}

fn say(game: &mut TextGame, text: &str, random: &Script) -> Vec<String> {
    game.text_action(text.to_string(), random);
    game.take_output()
}

fn started(random: &Script) -> TextGame {
    let mut game = TextGame::new();
    game.start(random);
    game.take_output();
    game
}

fn status_in_room_one() -> Vec<String> {
    vec![
        "YOU ARE IN ROOM 1".to_string(),
        "TUNNELS LEAD TO 2 5 8".to_string(),
        "I FEEL A DRAFT".to_string(),
        "BATS NEARBY!".to_string(),
        "I SMELL A WUMPUS!".to_string(),
        "SHOOT OR MOVE (S-M)?".to_string(),
    ]
}

#[test]
fn start_writes_the_notice_and_the_question() {
    let random = script(&[]);
    let mut game = TextGame::new();
    assert!(game.take_output().is_empty());
    game.start(&random);
    assert_eq!(
        game.take_output(),
        vec!["COPYRIGHT 1979 CREATIVE COMPUTING MORRISTOWN, NJ", "DO YOU NEED INSTRUCTIONS?"]
    );
    assert_eq!(game.game().get_game_state(), GameStates::DoYouWantInstructions);
    assert!(!game.is_game_over());
    assert!(game.take_output().is_empty());
}

#[test]
fn before_start_lines_are_ignored() {
    let random = script(&[]);
    let mut game = TextGame::new();
    assert!(say(&mut game, "Y", &random).is_empty());
    assert_eq!(game.game().get_game_state(), GameStates::GameStart);
}

#[test]
fn no_instructions_shows_where_you_are() {
    let random = script(&[]);
    let mut game = started(&random);
    assert_eq!(say(&mut game, "n\n", &random), status_in_room_one());
    assert_eq!(game.game().get_game_state(), GameStates::DoYouWantToMoveOrShoot);
}

#[test]
fn unclear_answer_is_asked_again() {
    let random = script(&[]);
    let mut game = started(&random);
    assert_eq!(say(&mut game, "maybe", &random), vec!["Please answer (Y/N)"]);
    assert_eq!(game.game().get_game_state(), GameStates::DoYouWantInstructions);
}

#[test]
fn instructions_come_in_four_pages() {
    let random = script(&[]);
    let mut game = started(&random);
    let page1 = say(&mut game, " y ", &random);
    assert_eq!(page1.len(), 13);
    assert_eq!(page1[0], "THE WUMPUS LIVES IN A CAVE OF 20 ROOMS. EACH ROOM");
    assert_eq!(page1[12], "                  PRESS ENTER TO CONTINUE");
    assert_eq!(game.game().get_game_state(), GameStates::WaitInstructions);
    let page2 = say(&mut game, "", &random);
    assert_eq!(page2.len(), 10);
    assert_eq!(page2[0], "     WUMPUS");
    let page3 = say(&mut game, "", &random);
    assert_eq!(page3.len(), 14);
    assert_eq!(page3[0], "     YOU");
    let last = say(&mut game, "", &random);
    assert_eq!(last.len(), 11 + 6);
    assert_eq!(last[0], "     WARNINGS:");
    assert_eq!(last[9], "                       HUNT THE WUMPUS");
    assert_eq!(last[11..].to_vec(), status_in_room_one());
    assert_eq!(game.game().get_game_state(), GameStates::DoYouWantToMoveOrShoot);
}

#[test]
fn next_instruction_text_cycles() {
    let mut game = TextGame::new();
    let mut pages = 0;
    loop {
        pages += 1;
        if game.next_instruction_text() {
            break;
        }
    }
    assert_eq!(pages, 4);
    let all = game.take_output();
    assert_eq!(all.len(), INSTRUCTION_LINES);
    for (i, line) in all.iter().enumerate() {
        assert_eq!(line, instruction_line(i));
    }
    // Back at the first page.
    assert!(!game.next_instruction_text());
    assert_eq!(game.take_output()[0], "THE WUMPUS LIVES IN A CAVE OF 20 ROOMS. EACH ROOM");
}

#[test]
fn move_or_shoot_questions() {
    let random = script(&[]);
    let mut game = started(&random);
    say(&mut game, "N", &random);
    assert_eq!(say(&mut game, "x", &random), vec!["PLEASE ENTER M OR S"]);
    assert_eq!(say(&mut game, "m", &random), vec!["WHERE TO:"]);
    assert_eq!(game.game().get_game_state(), GameStates::MoveEnterRoomNumber);
}

#[test]
fn a_bad_room_number_reports_the_parse_error() {
    let random = script(&[]);
    let mut game = started(&random);
    say(&mut game, "N", &random);
    say(&mut game, "M", &random);
    let mut expected = vec!["invalid digit found in string".to_string()];
    expected.extend(vec![
        "YOU ARE IN ROOM 1".to_string(),
        "I FEEL A DRAFT".to_string(),
        "BATS NEARBY!".to_string(),
        "I SMELL A WUMPUS!".to_string(),
        "TUNNELS LEAD TO 2 5 8".to_string(),
        "SHOOT OR MOVE (S-M)?".to_string(),
    ]);
    assert_eq!(say(&mut game, "nine", &random), expected);
    let too_big = say(&mut game, "256", &random);
    assert_eq!(too_big[0], "number too large to fit in target type");
    let empty = say(&mut game, "  ", &random);
    assert_eq!(empty[0], "cannot parse integer from empty string");
}

#[test]
fn moving_away_from_the_hazards() {
    // The bumped wumpus moves on, through its tunnel 2 to room 9.
    let random = script(&[26, 2]);
    let mut game = started(&random);
    say(&mut game, "N", &random);
    say(&mut game, "M", &random);
    // Room 8 holds the sleeping wumpus.
    let out = say(&mut game, "8", &random);
    assert_eq!(out[0], "... OOPS BUMPED A WUMPUS");
    assert_eq!(out[1], "YOU ARE IN ROOM 8");
    assert_eq!(game.game().get_game_state(), GameStates::DoYouWantToMoveOrShoot);
}

#[test]
fn falling_into_a_pit() {
    let random = script(&[]);
    let mut game = started(&random);
    say(&mut game, "N", &random);
    say(&mut game, "M", &random);
    assert_eq!(say(&mut game, "+2", &random), vec!["YOU FELL IN A PIT", "HA HA HA - YOU LOSE!"]);
    assert!(game.is_game_over());
    assert_eq!(game.game().get_game_over_reason(), GameOverReason::YouFellIntoPit);
    // Any line then repeats the ending and offers a restart.
    assert_eq!(say(&mut game, "", &random), vec!["YOU FELL IN A PIT", "HA HA HA - YOU LOSE!"]);
    assert_eq!(game.game().get_game_state(), GameStates::Restart);
    assert_eq!(
        say(&mut game, "what", &random),
        vec!["SAME SET-UP (Y-N) OR 'Q' TO QUIT", "PLEASE ANSWER Y,N OR Q"]
    );
    let out = say(&mut game, "y", &random);
    assert_eq!(out[0], "SAME SET-UP (Y-N) OR 'Q' TO QUIT");
    // The same set-up puts you back where the game placed you.
    assert_eq!(out[1], "YOU ARE IN ROOM 1");
    assert_eq!(game.game().get_game_state(), GameStates::DoYouWantToMoveOrShoot);
    assert_eq!(game.game().number_of_arrows, 5);
}

#[test]
fn a_bat_snatch_is_reported() {
    let random = script(&[10]);
    let mut game = started(&random);
    say(&mut game, "N", &random);
    say(&mut game, "M", &random);
    let out = say(&mut game, "5", &random);
    assert_eq!(out[0], "ZAP--SUPER BAT SNATCH! ELSEWHERE FOR YOU");
    assert_eq!(out[1], "YOU ARE IN ROOM 10");
    assert_eq!(out.last().unwrap(), "SHOOT OR MOVE (S-M)?");
}

#[test]
fn shooting_the_wumpus() {
    let random = script(&[]);
    let mut game = started(&random);
    say(&mut game, "N", &random);
    assert_eq!(say(&mut game, "s", &random), vec!["NO. OF ROOMS(1-5)"]);
    assert_eq!(say(&mut game, "1", &random), vec!["ROOM#"]);
    assert_eq!(
        say(&mut game, "8", &random),
        vec!["AHA! YOU GOT THE WUMPUS", "HEE HEE HEE - THE WUMPUS'LL GETCHA NEXT TIME!!"]
    );
    assert_eq!(game.game().get_game_state(), GameStates::Restart);
    assert_eq!(game.game().get_game_over_reason(), GameOverReason::YouShotWumpus);
}

#[test]
fn a_missed_shot() {
    // The wumpus stays where it is (chance 10).
    let random = script(&[10]);
    let mut game = started(&random);
    say(&mut game, "N", &random);
    say(&mut game, "S", &random);
    say(&mut game, "1", &random);
    let out = say(&mut game, "5", &random);
    assert_eq!(out[0], "MISSED");
    assert_eq!(out[1], "YOU ARE IN ROOM 1");
    assert_eq!(game.game().number_of_arrows, 4);
    assert_eq!(game.game().get_game_state(), GameStates::DoYouWantToMoveOrShoot);
}

#[test]
fn restart_with_a_new_set_up() {
    let random = script(&[]);
    let mut game = started(&random);
    say(&mut game, "N", &random);
    say(&mut game, "M", &random);
    say(&mut game, "2", &random);
    say(&mut game, "", &random);
    let other = Script::new(&[10, 3, 4, 6, 7, 13], &[]);
    let out = say(&mut game, "N", &other);
    assert_eq!(
        out,
        vec![
            "SAME SET-UP (Y-N) OR 'Q' TO QUIT",
            "YOU ARE IN ROOM 10",
            "TUNNELS LEAD TO 2 9 11",
            "SHOOT OR MOVE (S-M)?",
        ]
    );
}

#[test]
fn checked_action_refuses_an_arrow_from_an_empty_quiver() {
    let random = script(&[1, 1, 1, 1, 1]);
    let mut game = started(&random);
    say(&mut game, "N", &random);
    // Four arrows that miss, then the last one empties the quiver.
    for _ in 0..5 {
        say(&mut game, "S", &random);
        say(&mut game, "1", &random);
        say(&mut game, "5", &random);
    }
    assert_eq!(game.game().get_game_state(), GameStates::Restart);
    assert_eq!(game.game().get_game_over_reason(), GameOverReason::YouAreOutOfArrows);
    assert_eq!(game.game().number_of_arrows, 0);
    say(&mut game, "Q", &random);
    assert!(game.is_game_over());
    // Starting again without a restart keeps the empty quiver.
    game.start(&random);
    game.take_output();
    say(&mut game, "N", &random);
    say(&mut game, "S", &random);
    say(&mut game, "1", &random);
    assert!(game.text_action_checked("junk".to_string(), &random));
    assert!(!game.text_action_checked("3".to_string(), &random));
    assert_eq!(game.game().get_game_state(), GameStates::ShootEnterRoomNumber);
}

#[test]
fn numbers_as_text() {
    assert_eq!(u8_text(0), "0");
    assert_eq!(u8_text(7), "7");
    assert_eq!(u8_text(42), "42");
    assert_eq!(u8_text(100), "100");
    assert_eq!(u8_text(255), "255");
}

#[test]
fn answers_are_upper_cased_and_trimmed() {
    assert_eq!(read_answer(&" y \n".to_string()), "Y");
    assert!(is_char(&read_answer(&"\tq".to_string()), 'Q'));
    assert!(!is_char(&"YY".to_string(), 'Y'));
    assert!(!is_char(&"".to_string(), 'Y'));
}

#[test]
fn text_search() {
    assert!(contains_text("   PRESS ENTER TO CONTINUE", "PRESS ENTER"));
    assert!(!contains_text("PRESS ENTE", "PRESS ENTER"));
    assert!(contains_text("abc", ""));
    assert!(!contains_text("", "a"));
}

#[test]
fn q_quits_the_game() {
    let random = script(&[]);
    let mut game = started(&random);
    say(&mut game, "N", &random);
    say(&mut game, "M", &random);
    say(&mut game, "2", &random);
    say(&mut game, "", &random);
    assert_eq!(game.game().get_game_state(), GameStates::Restart);
    assert!(!game.is_game_over());
    assert_eq!(say(&mut game, "q", &random), vec!["SAME SET-UP (Y-N) OR 'Q' TO QUIT"]);
    assert!(game.is_game_over());
}
