//! The dialogue: each line the player types moves the game on, and the
//! game's answers pile up as lines of text to be shown.

use std::num::ParseIntError;
use vstd::prelude::*;
use crate::random::Random;
use crate::game::actor::{Actor, ActorType, is_cast, lemma_cast_positions};
use crate::game::constants::{GameStates, GameAction, GameOverReason, maze};
use crate::game::game::{Game, GameView, game_step, can_act, actors_wf, move_outcome, shot_outcome, fit_for_game, bat_drop, shot_draws, wumpus_draws};
use crate::game::laws::{lemma_step_keeps_the_cast, lemma_move_and_shot_settle, cast_wf};
use super::instructions::{INSTRUCTION_LINES, instruction, instruction_line};
use super::text::{
    answer, number, decimal, has_infix, occurs_at, read_answer, is_char, u8_text, contains_text, parse_number,
    number_error_text, trimmed, parse_u8_error_text,
};

verus! {

broadcast use vstd::string::group_string_axioms;

/// The text game: the game, how far the instructions have been read, and
/// the lines written and not yet taken.
pub struct TextGame {
    instruction_index: usize,
    game: Game,
    output: Vec<String>,
}

/// A text game as a value.
#[verifier::ext_equal]
pub struct TextView {
    pub instruction_index: int,
    pub game: GameView,
    pub output: Seq<Seq<char>>,
}

impl View for TextGame {
    type V = TextView;

    closed spec fn view(&self) -> TextView {
        TextView {
            instruction_index: self.instruction_index as int,
            game: self.game@,
            output: self.output@.map_values(|s: String| s@),
        }
    }
}

/// What the dialogue keeps true of its game, whatever the player types:
/// the cast is placed once the game has started, and the arrow's counters
/// stay small and in step with the questions asked.
pub open spec fn dialogue_wf(t: TextView) -> bool {
    let g = t.game;
    &&& 0 <= t.instruction_index <= INSTRUCTION_LINES
    &&& cast_wf(g)
    &&& g.state != GameStates::GameStart ==> is_cast(g.actors)
    &&& g.current_arrow_room_count <= 5
    &&& g.number_of_arrow_rooms <= 5
    &&& g.state == GameStates::ShootEnterNumberOfRooms ==> g.current_arrow_room_count == 0
    &&& g.state == GameStates::ShootEnterRoomNumber ==> (g.current_arrow_room_count < g.number_of_arrow_rooms
        || g.current_arrow_room_count == 0)
}

/// Line `i` of the instructions ends a page.
pub open spec fn page_break(i: int) -> bool {
    has_infix(instruction(i), "PRESS ENTER"@)
}

/// The last line of the page that starts at `i`, or the end of the instructions.
pub open spec fn page_end(i: int) -> int
    decreases INSTRUCTION_LINES - i,
{
    if i >= INSTRUCTION_LINES {
        INSTRUCTION_LINES as int
    } else if page_break(i) {
        i
    } else {
        page_end(i + 1)
    }
}

/// Lines `from` to `to` of the instructions, `to` excluded.
pub open spec fn instruction_lines(from: int, to: int) -> Seq<Seq<char>> {
    Seq::new((to - from) as nat, |k: int| instruction(from + k))
}

/// The page that starts at `i` is the last one.
pub open spec fn page_complete(i: int) -> bool {
    page_end(i) == INSTRUCTION_LINES
}

/// The lines shown for the page that starts at `i`.
pub open spec fn page_lines(i: int) -> Seq<Seq<char>> {
    if i >= INSTRUCTION_LINES {
        Seq::empty()
    } else if page_end(i) < INSTRUCTION_LINES {
        instruction_lines(i, page_end(i) + 1)
    } else {
        instruction_lines(i, INSTRUCTION_LINES as int)
    }
}

/// Where the instructions are read on from after the page that starts at `i`.
pub open spec fn page_next_index(i: int) -> int {
    if page_complete(i) {
        0
    } else {
        page_end(i) + 1
    }
}

/// The page that starts at `i` ends at `i` or after it: at a page break
/// where it stops short of the end of the instructions, with no page break
/// before that.
pub proof fn lemma_page_end(i: int)
    requires
        0 <= i <= INSTRUCTION_LINES,
    ensures
        i <= page_end(i) <= INSTRUCTION_LINES,
        page_end(i) < INSTRUCTION_LINES ==> page_break(page_end(i)),
        forall|j: int| i <= j < page_end(i) ==> !#[trigger] page_break(j),
    decreases INSTRUCTION_LINES - i,
{
    if i < INSTRUCTION_LINES && !page_break(i) {
        lemma_page_end(i + 1);
    }
}

/// What reading the instructions page after page from line `i` shows, up
/// to and including the page that completes them.
pub open spec fn pages_from(i: int) -> Seq<Seq<char>>
    decreases INSTRUCTION_LINES - i,
{
    if 0 <= i < INSTRUCTION_LINES && !page_complete(i) {
        proof {
            lemma_page_end(i);
        }
        page_lines(i) + pages_from(page_next_index(i))
    } else {
        page_lines(i)
    }
}

/// Reading the instructions page after page from any line shows every line
/// from there to the end once, in order; each page but the last stops at a
/// line that asks to press enter, and after the last page reading starts
/// over at the first line.
pub proof fn lemma_pages_show_every_line_once(i: int)
    requires
        0 <= i <= INSTRUCTION_LINES,
    ensures
        pages_from(i) == instruction_lines(i, INSTRUCTION_LINES as int),
        !page_complete(i) ==> i < page_next_index(i) && page_break(page_next_index(i) - 1),
        page_complete(i) ==> page_next_index(i) == 0,
    decreases INSTRUCTION_LINES - i,
{
    lemma_page_end(i);
    if i == INSTRUCTION_LINES {
        assert(instruction_lines(i, INSTRUCTION_LINES as int) =~= Seq::<Seq<char>>::empty());
    } else if page_complete(i) {
        assert(page_lines(i) =~= instruction_lines(i, INSTRUCTION_LINES as int));
    } else {
        let k = page_next_index(i);
        lemma_pages_show_every_line_once(k);
        assert(page_lines(i) + instruction_lines(k, INSTRUCTION_LINES as int)
            =~= instruction_lines(i, INSTRUCTION_LINES as int));
    }
}

/// No `P` is followed by `R` in `s` from position `i` on.
pub open spec fn no_pr_from(s: Seq<char>, i: int) -> bool
    decreases s.len() - i,
{
    if i < 0 || i + 1 >= s.len() {
        true
    } else {
        !(s[i] == 'P' && s[i + 1] == 'R') && no_pr_from(s, i + 1)
    }
}

proof fn lemma_no_pr_at(s: Seq<char>, j: int, i: int)
    requires
        no_pr_from(s, j),
        0 <= j <= i,
        i + 1 < s.len(),
    ensures
        !(s[i] == 'P' && s[i + 1] == 'R'),
    decreases i - j,
{
    if j < i {
        lemma_no_pr_at(s, j + 1, i);
    }
}

/// A line with no `P` followed by `R` asks nobody to press enter.
proof fn lemma_no_pr_no_break(s: Seq<char>)
    requires
        no_pr_from(s, 0),
    ensures
        !has_infix(s, "PRESS ENTER"@),
{
    reveal_strlit("PRESS ENTER");
    if has_infix(s, "PRESS ENTER"@) {
        let i = choose|i: int| occurs_at(s, "PRESS ENTER"@, i);
        assert(s.subrange(i, i + 11)[0] == s[i]);
        assert(s.subrange(i, i + 11)[1] == s[i + 1]);
        lemma_no_pr_at(s, 0, i);
    }
}

/// Only lines 12, 22 and 36 of the instructions end a page.
proof fn lemma_page_breaks(i: int)
    requires
        0 <= i < INSTRUCTION_LINES,
    ensures
        page_break(i) <==> (i == 12 || i == 22 || i == 36),
{
    reveal_with_fuel(no_pr_from, 64);
    if i == 0 {
        reveal_strlit("THE WUMPUS LIVES IN A CAVE OF 20 ROOMS. EACH ROOM");
        lemma_no_pr_no_break(instruction(0));
    } else if i == 1 {
        reveal_strlit("HAS 3 TUNNELS LEADING TO OTHER ROOMS. (LOOK AT A");
        lemma_no_pr_no_break(instruction(1));
    } else if i == 2 {
        reveal_strlit("DODECAHEDRON TO SEE HOW THIS WORKS - IF YOU DONT'T");
        lemma_no_pr_no_break(instruction(2));
    } else if i == 3 {
        reveal_strlit("KNOW WHAT A DEDECHARON IS, ASK SOMEONE)");
        lemma_no_pr_no_break(instruction(3));
    } else if i == 4 {
        reveal_strlit("");
        lemma_no_pr_no_break(instruction(4));
    } else if i == 5 {
        reveal_strlit("     HAZARDS");
        lemma_no_pr_no_break(instruction(5));
    } else if i == 6 {
        reveal_strlit("BOTTOMLESS PITS - TWO ROOMS HAVE BOTTOMLESS PITS IN THEM");
        lemma_no_pr_no_break(instruction(6));
    } else if i == 7 {
        reveal_strlit("     IF YOU GO THERE YOU FALL INTO THE PIT (& LOSE!)");
        lemma_no_pr_no_break(instruction(7));
    } else if i == 8 {
        reveal_strlit("SUPERBATS - TWO OTHER ROOMS HAVE SUPER BATS. IF YOU");
        lemma_no_pr_no_break(instruction(8));
    } else if i == 9 {
        reveal_strlit("     GO THERE, A BAT GRABS YOU AND TAKES YOU TO SOME OTHER");
        lemma_no_pr_no_break(instruction(9));
    } else if i == 10 {
        reveal_strlit("     ROOM AT RANDOM (WHICH MIGHT BE TOUBLESOME)");
        lemma_no_pr_no_break(instruction(10));
    } else if i == 11 {
        reveal_strlit("");
        lemma_no_pr_no_break(instruction(11));
    } else if i == 12 {
        reveal_strlit("                  PRESS ENTER TO CONTINUE");
        reveal_strlit("PRESS ENTER");
        assert(instruction(12).subrange(18, 29) =~= "PRESS ENTER"@);
        assert(occurs_at(instruction(12), "PRESS ENTER"@, 18));
    } else if i == 13 {
        reveal_strlit("     WUMPUS");
        lemma_no_pr_no_break(instruction(13));
    } else if i == 14 {
        reveal_strlit("THE WUMPUS IS NOT BOTHERED BY THE HAZARDS (HE HAS SUCKER");
        lemma_no_pr_no_break(instruction(14));
    } else if i == 15 {
        reveal_strlit("FEET AND IS TO BIG FOR A BAT TO LIFT). USUALLY");
        lemma_no_pr_no_break(instruction(15));
    } else if i == 16 {
        reveal_strlit("HE IS ASLEEP. TWO THINGS THAT CAN WAKE HIM UP: YOUR ENTERING");
        lemma_no_pr_no_break(instruction(16));
    } else if i == 17 {
        reveal_strlit("HIS ROOM OR YOUR SHOOTING AN ARROW");
        lemma_no_pr_no_break(instruction(17));
    } else if i == 18 {
        reveal_strlit("   IF THE WUMPUS WAKES, HE MOVES (P=75) ONE ROOM");
        lemma_no_pr_no_break(instruction(18));
    } else if i == 19 {
        reveal_strlit("OR STAYS STILL (P=25). AFTER THAT, IF HE IS WHERE YOU");
        lemma_no_pr_no_break(instruction(19));
    } else if i == 20 {
        reveal_strlit("ARE, HE EATS YOU UP (& YOU LOOSE)");
        lemma_no_pr_no_break(instruction(20));
    } else if i == 21 {
        reveal_strlit("");
        lemma_no_pr_no_break(instruction(21));
    } else if i == 22 {
        reveal_strlit("                  PRESS ENTER TO CONTINUE");
        reveal_strlit("PRESS ENTER");
        assert(instruction(22).subrange(18, 29) =~= "PRESS ENTER"@);
        assert(occurs_at(instruction(22), "PRESS ENTER"@, 18));
    } else if i == 23 {
        reveal_strlit("     YOU");
        lemma_no_pr_no_break(instruction(23));
    } else if i == 24 {
        reveal_strlit("EACH TURN YOU MAY MOVE OR SHOOT A CROOKED ARROW");
        lemma_no_pr_no_break(instruction(24));
    } else if i == 25 {
        reveal_strlit("");
        lemma_no_pr_no_break(instruction(25));
    } else if i == 26 {
        reveal_strlit("     MOVING: YOU CAN GO ONE ROOM (THRU ONE TUNNEL)");
        lemma_no_pr_no_break(instruction(26));
    } else if i == 27 {
        reveal_strlit("     ARROWS: YOU HAVE 5 ARROWS. YOU LOSE WHEN YOU RUN OUT.");
        lemma_no_pr_no_break(instruction(27));
    } else if i == 28 {
        reveal_strlit("     EACH ARROW CAN GO FROM 1 TO 5 ROOMS. YOU AIM BY TELLING");
        lemma_no_pr_no_break(instruction(28));
    } else if i == 29 {
        reveal_strlit("     THE COMPUTER THE ROOMS YOU WANT THE ARROW TO GO TO.");
        lemma_no_pr_no_break(instruction(29));
    } else if i == 30 {
        reveal_strlit("     IF THE ARROW CAN´T GO THAT WAY (I.E, NO TUNNEL) IT MOVES");
        lemma_no_pr_no_break(instruction(30));
    } else if i == 31 {
        reveal_strlit("     AT RANDOM TO THE NEXT ROOM");
        lemma_no_pr_no_break(instruction(31));
    } else if i == 32 {
        reveal_strlit("");
        lemma_no_pr_no_break(instruction(32));
    } else if i == 33 {
        reveal_strlit("       IF THE ARROW HITS THE WUMPUS, YOU WIN.");
        lemma_no_pr_no_break(instruction(33));
    } else if i == 34 {
        reveal_strlit("       IF THE ARROW HITS YOU, YOU LOSE");
        lemma_no_pr_no_break(instruction(34));
    } else if i == 35 {
        reveal_strlit("");
        lemma_no_pr_no_break(instruction(35));
    } else if i == 36 {
        reveal_strlit("                  PRESS ENTER TO CONTINUE");
        reveal_strlit("PRESS ENTER");
        assert(instruction(36).subrange(18, 29) =~= "PRESS ENTER"@);
        assert(occurs_at(instruction(36), "PRESS ENTER"@, 18));
    } else if i == 37 {
        reveal_strlit("     WARNINGS:");
        lemma_no_pr_no_break(instruction(37));
    } else if i == 38 {
        reveal_strlit("     WHEN YOU ARE ONE ROOM AWAY FROM WUMPUS OR HAZARD,");
        lemma_no_pr_no_break(instruction(38));
    } else if i == 39 {
        reveal_strlit("     THE COMPUTER SAYS:");
        lemma_no_pr_no_break(instruction(39));
    } else if i == 40 {
        reveal_strlit("");
        lemma_no_pr_no_break(instruction(40));
    } else if i == 41 {
        reveal_strlit("WUMPUS-    'I SMELL A WUMPUS'");
        lemma_no_pr_no_break(instruction(41));
    } else if i == 42 {
        reveal_strlit("BAT   -    'BATS NEARBY'");
        lemma_no_pr_no_break(instruction(42));
    } else if i == 43 {
        reveal_strlit("PIT   -    'I FEEL A DRAFT");
        lemma_no_pr_no_break(instruction(43));
    } else if i == 44 {
        reveal_strlit("");
        lemma_no_pr_no_break(instruction(44));
    } else if i == 45 {
        reveal_strlit("");
        lemma_no_pr_no_break(instruction(45));
    } else if i == 46 {
        reveal_strlit("                       HUNT THE WUMPUS");
        lemma_no_pr_no_break(instruction(46));
    } else if i == 47 {
        reveal_strlit("");
        lemma_no_pr_no_break(instruction(47));
    }
}

/// A page that starts at `i` ends at `e`, where `e` is the first page break
/// from `i` on or the end of the instructions.
proof fn lemma_page_end_is(i: int, e: int)
    requires
        0 <= i <= e <= INSTRUCTION_LINES,
        forall|j: int| i <= j < e ==> !#[trigger] page_break(j),
        e < INSTRUCTION_LINES ==> page_break(e),
    ensures
        page_end(i) == e,
    decreases e - i,
{
    if i < e {
        lemma_page_end_is(i + 1, e);
    }
}

/// The instructions come in four pages: lines 0 to 12, 13 to 22, 23 to 36,
/// and 37 to the last. Each of the first three ends with the line that asks
/// to press enter; the fourth completes the instructions, and reading
/// starts over at the first line.
pub proof fn lemma_four_pages()
    ensures
        page_lines(0) == instruction_lines(0, 13),
        !page_complete(0) && page_next_index(0) == 13,
        page_lines(13) == instruction_lines(13, 23),
        !page_complete(13) && page_next_index(13) == 23,
        page_lines(23) == instruction_lines(23, 37),
        !page_complete(23) && page_next_index(23) == 37,
        page_lines(37) == instruction_lines(37, INSTRUCTION_LINES as int),
        page_complete(37) && page_next_index(37) == 0,
{
    assert forall|i: int| 0 <= i < INSTRUCTION_LINES implies (#[trigger] page_break(i) <==> (i == 12 || i == 22 || i == 36)) by {
        lemma_page_breaks(i);
    }
    lemma_page_end_is(0, 12);
    lemma_page_end_is(13, 22);
    lemma_page_end_is(23, 36);
    lemma_page_end_is(37, INSTRUCTION_LINES as int);
}

pub open spec fn location_line(g: GameView) -> Seq<char> {
    "YOU ARE IN ROOM "@ + decimal(g.you_room() as nat)
}

pub open spec fn tunnels_line(g: GameView) -> Seq<char> {
    let t = maze(g.you_room());
    "TUNNELS LEAD TO "@ + decimal(t[0] as nat) + " "@ + decimal(t[1] as nat) + " "@ + decimal(t[2] as nat)
}

pub open spec fn danger_text(t: ActorType) -> Seq<char> {
    match t {
        ActorType::Wumpus => "I SMELL A WUMPUS!"@,
        ActorType::Bat => "BATS NEARBY!"@,
        ActorType::Pit => "I FEEL A DRAFT"@,
        ActorType::You => Seq::empty(),
    }
}

/// A warning for each hazard among `actors`, in their order.
pub open spec fn danger_lines(actors: Seq<Actor>) -> Seq<Seq<char>>
    decreases actors.len(),
{
    if actors.len() == 0 {
        Seq::empty()
    } else {
        let rest = danger_lines(actors.drop_last());
        if actors.last().actor_type == ActorType::You {
            rest
        } else {
            rest.push(danger_text(actors.last().actor_type))
        }
    }
}

pub open spec fn move_or_shoot_line() -> Seq<char> {
    "SHOOT OR MOVE (S-M)?"@
}

/// Where you are, where the tunnels lead, the warnings, and the question.
pub open spec fn status_tunnels_first(g: GameView) -> Seq<Seq<char>> {
    seq![location_line(g), tunnels_line(g)] + danger_lines(g.dangers()) + seq![move_or_shoot_line()]
}

/// Where you are, the warnings, where the tunnels lead, and the question.
pub open spec fn status_dangers_first(g: GameView) -> Seq<Seq<char>> {
    seq![location_line(g)] + danger_lines(g.dangers()) + seq![tunnels_line(g), move_or_shoot_line()]
}

pub open spec fn reason_text(reason: GameOverReason) -> Seq<char> {
    match reason {
        GameOverReason::NotDeadYet => "NOT DEAD YET"@,
        GameOverReason::WumpusGotYou => "WUMPUS GOT YOU"@,
        GameOverReason::YouAreOutOfArrows => "YOU ARE OUT OF ARROWS"@,
        GameOverReason::YouFellIntoPit => "YOU FELL IN A PIT"@,
        GameOverReason::YouShotWumpus => "AHA! YOU GOT THE WUMPUS"@,
        GameOverReason::YouShotYourself => "YOU SHOT YOURSELF"@,
    }
}

pub open spec fn game_over_lines(reason: GameOverReason) -> Seq<Seq<char>> {
    seq![
        reason_text(reason),
        if reason == GameOverReason::YouShotWumpus {
            "HEE HEE HEE - THE WUMPUS'LL GETCHA NEXT TIME!!"@
        } else {
            "HA HA HA - YOU LOSE!"@
        },
    ]
}

/// The news after a move: the bat, the bump, and where you are now, or how the game ended.
pub open spec fn after_move_lines(h: GameView) -> Seq<Seq<char>> {
    let bat: Seq<Seq<char>> = if h.super_bat_move {
        seq!["ZAP--SUPER BAT SNATCH! ELSEWHERE FOR YOU"@]
    } else {
        Seq::empty()
    };
    if h.state != GameStates::GameOver {
        let bump: Seq<Seq<char>> = if h.bumped_wumpus {
            seq!["... OOPS BUMPED A WUMPUS"@]
        } else {
            Seq::empty()
        };
        bat + bump + status_dangers_first(h)
    } else {
        bat + game_over_lines(h.game_over_reason)
    }
}

pub open spec fn restart_question() -> Seq<char> {
    "SAME SET-UP (Y-N) OR 'Q' TO QUIT"@
}

/// The line `text` completes an arrow's path while the quiver is empty: a
/// shot that cannot be taken, since the count of arrows would go below zero.
/// This happens only where a game is started again after it was lost for
/// want of arrows, without a restart.
pub open spec fn arrow_without_quiver(t: TextView, text: Seq<char>) -> bool {
    &&& t.game.state == GameStates::ShootEnterRoomNumber
    &&& number(text) is Some
    &&& t.game.current_arrow_room_count + 1 >= t.game.number_of_arrow_rooms
    &&& t.game.number_of_arrows == 0
}

/// What one line `text` typed by the player makes of the text game `t`.
pub open spec fn text_step<R: Random>(t: TextView, text: Seq<char>, random: &R, u: TextView) -> bool {
    let g = t.game;
    let a = answer(text);
    match g.state {
        GameStates::DoYouWantInstructions => if a == seq!['Y'] {
            u == TextView {
                instruction_index: page_next_index(t.instruction_index),
                game: g.at(GameStates::WaitInstructions),
                output: t.output + page_lines(t.instruction_index),
            }
        } else if a == seq!['N'] {
            u == TextView {
                game: g.at(GameStates::DoYouWantToMoveOrShoot),
                output: t.output + status_tunnels_first(g),
                ..t
            }
        } else {
            u == TextView { output: t.output.push("Please answer (Y/N)"@), ..t }
        },
        GameStates::WaitInstructions => {
            let shown = t.output + page_lines(t.instruction_index);
            if page_complete(t.instruction_index) {
                u == TextView {
                    instruction_index: page_next_index(t.instruction_index),
                    game: g.at(GameStates::DoYouWantToMoveOrShoot),
                    output: shown + status_tunnels_first(g),
                }
            } else {
                u == TextView { instruction_index: page_next_index(t.instruction_index), game: g, output: shown }
            }
        },
        GameStates::DoYouWantToMoveOrShoot => if a == seq!['M'] {
            u == TextView {
                game: g.at(GameStates::MoveEnterRoomNumber),
                output: t.output.push("WHERE TO:"@),
                ..t
            }
        } else if a == seq!['S'] {
            &&& game_step(g, GameAction::Shoot, None, random, u.game)
            &&& u == TextView { game: u.game, output: t.output.push("NO. OF ROOMS(1-5)"@), ..t }
        } else {
            u == TextView { output: t.output.push("PLEASE ENTER M OR S"@), ..t }
        },
        GameStates::MoveEnterRoomNumber => match number(text) {
            Some(room) => {
                &&& game_step(g, GameAction::MoveToRoom, Some(room), random, u.game)
                &&& u == TextView { game: u.game, output: t.output + after_move_lines(u.game), ..t }
            },
            None => u == TextView {
                output: t.output.push(parse_u8_error_text(trimmed(text))) + after_move_lines(g),
                ..t
            },
        },
        GameStates::ShootEnterNumberOfRooms => match number(text) {
            Some(n) => {
                &&& game_step(g, GameAction::ShootNumberOfRooms, Some(n), random, u.game)
                &&& u == TextView { game: u.game, output: t.output.push("ROOM#"@), ..t }
            },
            None => u == TextView { output: t.output.push(parse_u8_error_text(trimmed(text))), ..t },
        },
        GameStates::ShootEnterRoomNumber => match number(text) {
            Some(room) => exists|h: GameView| {
                &&& game_step(g, GameAction::ShootRoomNumber, Some(room), random, h)
                &&& if h.state == GameStates::GameOver {
                    u == TextView {
                        game: h.at(GameStates::Restart),
                        output: t.output + game_over_lines(h.game_over_reason),
                        ..t
                    }
                } else if h.current_arrow_room_count == h.number_of_arrow_rooms {
                    u == TextView { game: h, output: t.output + seq!["MISSED"@] + status_dangers_first(h), ..t }
                } else {
                    u == TextView { game: h, output: t.output.push("ROOM#"@), ..t }
                }
            },
            None => u == TextView { output: t.output.push(parse_u8_error_text(trimmed(text))), ..t },
        },
        GameStates::GameOver => u == TextView {
            game: g.at(GameStates::Restart),
            output: t.output + game_over_lines(g.game_over_reason),
            ..t
        },
        GameStates::Restart => {
            let asked = t.output.push(restart_question());
            if a == seq!['Y'] {
                let h = g.restored();
                u == TextView { game: h, output: asked + status_dangers_first(h), ..t }
            } else if a == seq!['N'] {
                &&& game_step(g, GameAction::RestartClearAll, None, random, u.game)
                &&& u == TextView { game: u.game, output: asked + status_dangers_first(u.game), ..t }
            } else if a == seq!['Q'] {
                u == TextView { game: g.at(GameStates::GameOver), output: asked, ..t }
            } else {
                u == TextView { output: asked.push("PLEASE ANSWER Y,N OR Q"@), ..t }
            }
        },
        GameStates::GameStart => u == t,
    }
}

/// Each action the dialogue asks of the game, in the state in which it asks
/// it, keeps the dialogue consistent, whatever the dice say.
pub proof fn lemma_action_keeps_dialogue<R: Random>(t: TextView, action: GameAction, count: Option<u8>, random: &R)
    requires
        dialogue_wf(t),
        can_act(t.game, action, count),
        t.game.state == GameStates::GameStart ==> action == GameAction::StartGame,
        action == GameAction::ShootNumberOfRooms ==> t.game.state == GameStates::ShootEnterNumberOfRooms,
        action == GameAction::ShootRoomNumber ==> t.game.state == GameStates::ShootEnterRoomNumber,
        action == GameAction::RestartSameSetup ==> is_cast(t.game.actors),
    ensures
        forall|h: GameView| #[trigger] game_step(t.game, action, count, random, h) ==> dialogue_wf(TextView { game: h, ..t }),
{
    let g = t.game;
    assert forall|h: GameView| #[trigger] game_step(g, action, count, random, h) implies dialogue_wf(TextView { game: h, ..t }) by {
        lemma_step_keeps_the_cast(g, action, count, random, h);
        match action {
            GameAction::MoveToRoom => {
                if let Some(room) = count {
                    let m = choose|m: GameView| move_outcome(g, room, random, m) && h == m.settled();
                    let (bat_room, chance, tunnel) = choose|bat_room: u8, chance: u8, tunnel: u8| {
                        &&& crate::game::constants::valid_room(bat_room)
                        &&& bat_drop(g, room) ==> random.may_draw(1, 21, bat_room)
                        &&& 1 <= chance <= 100
                        &&& tunnel <= 2
                        &&& g.moved(room, bat_room).bumped_wumpus && g.moved(room, bat_room).state != GameStates::GameOver
                        ==> wumpus_draws(random, chance, tunnel)
                        &&& m == g.entered(room, bat_room, chance, tunnel)
                    };
                    assert(m.state == g.state || m.state == GameStates::GameOver);
                }
            },
            GameAction::ShootRoomNumber => {
                if let Some(room) = count {
                    let g1 = GameView {
                        current_arrow_room_count: (g.current_arrow_room_count + 1) as u8,
                        rooms_to_shoot_arrows_in: g.rooms_to_shoot_arrows_in.push(room),
                        ..g
                    };
                    if g1.current_arrow_room_count >= g1.number_of_arrow_rooms {
                        let rooms = g1.rooms_to_shoot_arrows_in;
                        let m = choose|m: GameView| shot_outcome(g1, rooms, random, m) && h == m.settled();
                        let (draws, chance, tunnel) = choose|draws: Seq<u8>, chance: u8, tunnel: u8| {
                            &&& shot_draws(g1, rooms, random, draws, chance, tunnel)
                            &&& m == g1.shot(rooms, draws, chance, tunnel)
                        };
                        assert(m.current_arrow_room_count == g1.current_arrow_room_count);
                        assert(m.number_of_arrow_rooms == g1.number_of_arrow_rooms);
                        assert(m.state == g1.state || m.state == GameStates::GameOver);
                    }
                }
            },
            _ => {},
        }
    }
}

/// Naming a room of the arrow's path before its last one flies no arrow:
/// the room joins the path, and the dialogue writes exactly "ROOM#" and
/// waits for the next room. Naming the last room shoots the arrow, which
/// spends one arrow; the dialogue then reports the end of the game or the
/// miss.
pub proof fn lemma_arrow_room_answer<R: Random>(t: TextView, text: Seq<char>, room: u8, random: &R, u: TextView)
    requires
        t.game.state == GameStates::ShootEnterRoomNumber,
        number(text) == Some(room),
        t.game.current_arrow_room_count < 255,
        text_step(t, text, random, u),
    ensures
        t.game.current_arrow_room_count + 1 < t.game.number_of_arrow_rooms ==> {
            &&& u.output == t.output.push("ROOM#"@)
            &&& u.game.state == GameStates::ShootEnterRoomNumber
            &&& u.game.rooms_to_shoot_arrows_in == t.game.rooms_to_shoot_arrows_in.push(room)
            &&& u.game.number_of_arrows == t.game.number_of_arrows
            &&& u.game.actors == t.game.actors
        },
        t.game.current_arrow_room_count + 1 == t.game.number_of_arrow_rooms && t.game.number_of_arrows >= 1 ==> {
            &&& u.game.number_of_arrows == t.game.number_of_arrows - 1
            &&& u.output != t.output.push("ROOM#"@)
        },
{
    let g = t.game;
    let h = choose|h: GameView| {
        &&& game_step(g, GameAction::ShootRoomNumber, Some(room), random, h)
        &&& if h.state == GameStates::GameOver {
            u == TextView {
                game: h.at(GameStates::Restart),
                output: t.output + game_over_lines(h.game_over_reason),
                ..t
            }
        } else if h.current_arrow_room_count == h.number_of_arrow_rooms {
            u == TextView { game: h, output: t.output + seq!["MISSED"@] + status_dangers_first(h), ..t }
        } else {
            u == TextView { game: h, output: t.output.push("ROOM#"@), ..t }
        }
    };
    let g1 = GameView {
        current_arrow_room_count: (g.current_arrow_room_count + 1) as u8,
        rooms_to_shoot_arrows_in: g.rooms_to_shoot_arrows_in.push(room),
        ..g
    };
    if g.current_arrow_room_count + 1 == g.number_of_arrow_rooms && g.number_of_arrows >= 1 {
        let rooms = g1.rooms_to_shoot_arrows_in;
        let m = choose|m: GameView| shot_outcome(g1, rooms, random, m) && h == m.settled();
        let (draws, chance, tunnel) = choose|draws: Seq<u8>, chance: u8, tunnel: u8| {
            &&& shot_draws(g1, rooms, random, draws, chance, tunnel)
            &&& m == g1.shot(rooms, draws, chance, tunnel)
        };
        if h.state == GameStates::GameOver {
            assert((t.output + game_over_lines(h.game_over_reason)).len() == t.output.len() + 2);
        } else {
            if h.current_arrow_room_count == h.number_of_arrow_rooms {
                assert((t.output + seq!["MISSED"@] + status_dangers_first(h)).len() > t.output.len() + 1);
            } else {
                assert(t.output.push("ROOM#"@).len() == t.output.len() + 1);
            }
        }
    }
}

impl TextGame {
    #[verifier::type_invariant]
    spec fn consistent(self) -> bool {
        dialogue_wf(self@)
    }

    pub fn new() -> (t: Self)
        ensures
            t@ == (TextView { instruction_index: 0, game: GameView::initial(), output: Seq::empty() }),
    {
        let t = TextGame { instruction_index: 0, game: Game::new(), output: Vec::new() };
        assert(t@.output =~= Seq::<Seq<char>>::empty());
        t
    }

    /// The game behind the dialogue.
    pub fn game(&self) -> (g: &Game)
        ensures
            g@ == self@.game,
    {
        &self.game
    }

    /// Hands out the lines written so far, and forgets them.
    pub fn take_output(&mut self) -> (lines: Vec<String>)
        ensures
            lines@.map_values(|s: String| s@) == old(self)@.output,
            final(self)@ == (TextView { output: Seq::empty(), ..old(self)@ }),
    {
        proof {
            use_type_invariant(&*self);
        }
        let mut lines: Vec<String> = Vec::new();
        std::mem::swap(&mut lines, &mut self.output);
        assert(self@.output =~= Seq::<Seq<char>>::empty());
        lines
    }


    /// Writes the notice and asks whether the player wants the instructions.
    pub fn start(&mut self, random: &impl Random)
        requires
            fit_for_game(random),
        ensures
            game_step(old(self)@.game, GameAction::StartGame, None, random, final(self)@.game),
            final(self)@ == (TextView {
                game: final(self)@.game,
                output: old(self)@.output + seq![
                    "COPYRIGHT 1979 CREATIVE COMPUTING MORRISTOWN, NJ"@,
                    "DO YOU NEED INSTRUCTIONS?"@,
                ],
                ..old(self)@
            }),
    {
        self.say("COPYRIGHT 1979 CREATIVE COMPUTING MORRISTOWN, NJ".to_string());
        self.say("DO YOU NEED INSTRUCTIONS?".to_string());
        proof {
            use_type_invariant(&*self);
            lemma_action_keeps_dialogue(self@, GameAction::StartGame, None, random);
        }
        self.play(GameAction::StartGame, None, random);
        proof {
            assert(self@.output =~= old(self)@.output + seq![
                "COPYRIGHT 1979 CREATIVE COMPUTING MORRISTOWN, NJ"@,
                "DO YOU NEED INSTRUCTIONS?"@,
            ]);
        }
    }

    /// Writes the next page of the instructions; at their end, starts them
    /// over and says that they are complete.
    pub fn next_instruction_text(&mut self) -> (complete: bool)
        ensures
            complete == page_complete(old(self)@.instruction_index),
            final(self)@ == (TextView {
                instruction_index: page_next_index(old(self)@.instruction_index),
                output: old(self)@.output + page_lines(old(self)@.instruction_index),
                ..old(self)@
            }),
    {
        proof {
            use_type_invariant(&*self);
        }
        let ghost start = self@.instruction_index;
        let ghost out0 = self@.output;
        let mut complete = false;
        proof {
            assert(out0 + instruction_lines(start, start) =~= out0);
        }
        loop
            invariant_except_break
                start <= self@.instruction_index <= INSTRUCTION_LINES,
                page_end(start) == page_end(self@.instruction_index),
                self@.output == out0 + instruction_lines(start, self@.instruction_index),
                self@.game == old(self)@.game,
                !complete,
            ensures
                complete == page_complete(start),
                self@ == (TextView {
                    instruction_index: page_next_index(start),
                    output: out0 + page_lines(start),
                    ..old(self)@
                }),
            decreases INSTRUCTION_LINES - self@.instruction_index,
        {
            proof {
                use_type_invariant(&*self);
            }
            if self.instruction_index > INSTRUCTION_LINES - 1 {
                self.instruction_index = 0;
                complete = true;
                proof {
                    assert(page_lines(start) =~= instruction_lines(start, INSTRUCTION_LINES as int));
                    assert(self@ =~= TextView {
                        instruction_index: page_next_index(start),
                        output: out0 + page_lines(start),
                        ..old(self)@
                    });
                }
                break;
            }
            let ghost i = self@.instruction_index;
            let current_line = instruction_line(self.instruction_index);
            self.instruction_index += 1;
            self.say(current_line.to_string());
            proof {
                assert(instruction_lines(start, i + 1) =~= instruction_lines(start, i).push(instruction(i)));
                assert(self@.output =~= out0 + instruction_lines(start, i + 1));
            }
            if contains_text(current_line, "PRESS ENTER") {
                proof {
                    assert(page_end(i) == i);
                    assert(self@ =~= TextView {
                        instruction_index: page_next_index(start),
                        output: out0 + page_lines(start),
                        ..old(self)@
                    });
                }
                break;
            }
        }
        complete
    }

    pub fn is_game_over(&self) -> (over: bool)
        ensures
            over == (self@.game.state == GameStates::GameOver),
    {
        match self.game.get_game_state() {
            GameStates::GameOver => return true,
            _ => return false,
        }
    }

    /// Writes all the instructions at once.
    fn show_instructions(&mut self)
        ensures
            final(self)@ == (TextView {
                output: old(self)@.output + instruction_lines(0, INSTRUCTION_LINES as int),
                ..old(self)@
            }),
    {
        let mut i: usize = 0;
        while i < INSTRUCTION_LINES
            invariant
                i <= INSTRUCTION_LINES,
                self@ == (TextView { output: old(self)@.output + instruction_lines(0, i as int), ..old(self)@ }),
            decreases INSTRUCTION_LINES - i,
        {
            self.say(instruction_line(i).to_string());
            proof {
                assert(instruction_lines(0, i + 1) =~= instruction_lines(0, i as int).push(instruction(i as int)));
                assert(self@ =~= TextView { output: old(self)@.output + instruction_lines(0, i + 1), ..old(self)@ });
            }
            i = i + 1;
        }
    }

    fn show_move_or_shoot(&mut self)
        ensures
            final(self)@ == (TextView { output: old(self)@.output.push(move_or_shoot_line()), ..old(self)@ }),
    {
        self.say("SHOOT OR MOVE (S-M)?".to_string());
    }

    fn show_your_location(&mut self)
        requires
            is_cast(old(self)@.game.actors),
        ensures
            final(self)@ == (TextView { output: old(self)@.output.push(location_line(old(self)@.game)), ..old(self)@ }),
    {
        proof {
            lemma_cast_positions(self@.game.actors);
        }
        let you = self.game.get_actor(ActorType::You);
        let mut line = "YOU ARE IN ROOM ".to_string();
        line.append(u8_text(you.room).as_str());
        self.say(line);
    }

    fn show_tunnels(&mut self)
        requires
            is_cast(old(self)@.game.actors),
        ensures
            final(self)@ == (TextView { output: old(self)@.output.push(tunnels_line(old(self)@.game)), ..old(self)@ }),
    {
        proof {
            lemma_cast_positions(self@.game.actors);
        }
        let actor = self.game.get_actor(ActorType::You);
        let tunnels = self.game.get_tunnels(actor.room);
        let mut line = "TUNNELS LEAD TO ".to_string();
        line.append(u8_text(tunnels[0]).as_str());
        line.append(" ");
        line.append(u8_text(tunnels[1]).as_str());
        line.append(" ");
        line.append(u8_text(tunnels[2]).as_str());
        self.say(line);
    }

    fn check_bat_move(&mut self)
        ensures
            final(self)@ == (TextView {
                output: old(self)@.output + (if old(self)@.game.super_bat_move {
                    seq!["ZAP--SUPER BAT SNATCH! ELSEWHERE FOR YOU"@]
                } else {
                    Seq::<Seq<char>>::empty()
                }),
                ..old(self)@
            }),
    {
        if self.game.moved_by_bat() {
            self.say("ZAP--SUPER BAT SNATCH! ELSEWHERE FOR YOU".to_string())
        }
        proof {
            if !old(self)@.game.super_bat_move {
                assert(old(self)@.output + Seq::<Seq<char>>::empty() =~= old(self)@.output);
            } else {
                assert(old(self)@.output + seq!["ZAP--SUPER BAT SNATCH! ELSEWHERE FOR YOU"@]
                    =~= old(self)@.output.push("ZAP--SUPER BAT SNATCH! ELSEWHERE FOR YOU"@));
            }
        }
    }

    fn check_bumped_wumpus(&mut self)
        ensures
            final(self)@ == (TextView {
                output: old(self)@.output + (if old(self)@.game.bumped_wumpus {
                    seq!["... OOPS BUMPED A WUMPUS"@]
                } else {
                    Seq::<Seq<char>>::empty()
                }),
                ..old(self)@
            }),
    {
        if self.game.bumped_wumpus() {
            self.say("... OOPS BUMPED A WUMPUS".to_string())
        }
        proof {
            if !old(self)@.game.bumped_wumpus {
                assert(old(self)@.output + Seq::<Seq<char>>::empty() =~= old(self)@.output);
            } else {
                assert(old(self)@.output + seq!["... OOPS BUMPED A WUMPUS"@]
                    =~= old(self)@.output.push("... OOPS BUMPED A WUMPUS"@));
            }
        }
    }

    fn show_dangers_nearby(&mut self)
        requires
            is_cast(old(self)@.game.actors),
        ensures
            final(self)@ == (TextView {
                output: old(self)@.output + danger_lines(old(self)@.game.dangers()),
                ..old(self)@
            }),
    {
        proof {
            lemma_cast_positions(self@.game.actors);
        }
        let danger_actors = self.game.dangers_nearby();
        proof {
            assert(danger_actors@.map_values(|a: &Actor| *a) =~= self@.game.dangers());
        }
        let danger_actors_texts = self.dangers_nearby_to_string(danger_actors);
        let ghost lines = danger_lines(self@.game.dangers());
        let mut i: usize = 0;
        while i < danger_actors_texts.len()
            invariant
                i <= danger_actors_texts.len(),
                danger_actors_texts@.map_values(|s: String| s@) == lines,
                self@ == (TextView { output: old(self)@.output + lines.take(i as int), ..old(self)@ }),
            decreases danger_actors_texts.len() - i,
        {
            let text = danger_actors_texts[i].clone();
            self.say(text);
            proof {
                assert(lines[i as int] == danger_actors_texts@[i as int]@);
                assert(lines.take(i + 1) =~= lines.take(i as int).push(lines[i as int]));
                assert(self@ =~= TextView { output: old(self)@.output + lines.take(i + 1), ..old(self)@ });
            }
            i = i + 1;
        }
        proof {
            assert(lines.take(i as int) =~= lines);
        }
    }

    fn show_game_over(&mut self)
        ensures
            final(self)@ == (TextView {
                output: old(self)@.output + game_over_lines(old(self)@.game.game_over_reason),
                ..old(self)@
            }),
    {
        let reason = self.game.get_game_over_reason();
        let reason_text = match reason {
            GameOverReason::NotDeadYet => "NOT DEAD YET".to_string(),
            GameOverReason::WumpusGotYou => "WUMPUS GOT YOU".to_string(),
            GameOverReason::YouAreOutOfArrows => "YOU ARE OUT OF ARROWS".to_string(),
            GameOverReason::YouFellIntoPit => "YOU FELL IN A PIT".to_string(),
            GameOverReason::YouShotWumpus => "AHA! YOU GOT THE WUMPUS".to_string(),
            GameOverReason::YouShotYourself => "YOU SHOT YOURSELF".to_string(),
        };
        self.say(reason_text);
        match reason {
            GameOverReason::YouShotWumpus => {
                self.say("HEE HEE HEE - THE WUMPUS'LL GETCHA NEXT TIME!!".to_string())
            },
            _ => {
                self.say("HA HA HA - YOU LOSE!".to_string());
            },
        }
        proof {
            assert(self@.output =~= old(self)@.output + game_over_lines(reason));
        }
    }

    fn show_restart(&mut self)
        ensures
            final(self)@ == (TextView { output: old(self)@.output.push(restart_question()), ..old(self)@ }),
    {
        self.say("SAME SET-UP (Y-N) OR 'Q' TO QUIT".to_string());
    }

    /// A warning for each hazard among `actors`.
    fn dangers_nearby_to_string(&self, actors: Vec<&Actor>) -> (texts: Vec<String>)
        ensures
            texts@.map_values(|s: String| s@) == danger_lines(actors@.map_values(|a: &Actor| *a)),
    {
        let ghost all = actors@.map_values(|a: &Actor| *a);
        let mut danger_list: Vec<String> = Vec::new();
        let mut i: usize = 0;
        while i < actors.len()
            invariant
                i <= actors.len(),
                all == actors@.map_values(|a: &Actor| *a),
                danger_list@.map_values(|s: String| s@) == danger_lines(all.take(i as int)),
            decreases actors.len() - i,
        {
            let actor = actors[i];
            let ghost before = danger_list@;
            match actor.actor_type {
                ActorType::Wumpus => danger_list.push("I SMELL A WUMPUS!".to_string()),
                ActorType::Bat => danger_list.push("BATS NEARBY!".to_string()),
                ActorType::Pit => danger_list.push("I FEEL A DRAFT".to_string()),
                ActorType::You => {},
            }
            proof {
                assert(all.take(i + 1).drop_last() =~= all.take(i as int));
                assert(all.take(i + 1).last() == *actor);
                assert(danger_list@.map_values(|s: String| s@) =~= danger_lines(all.take(i + 1)));
            }
            i = i + 1;
        }
        proof {
            assert(all.take(i as int) =~= all);
        }
        danger_list
    }

    /// Reads a number of rooms or a room from a line typed by the player.
    fn convert_to_u8(&self, input_text: &String) -> (r: Result<u8, ParseIntError>)
        ensures
            r is Ok <==> number(input_text@) is Some,
            r matches Ok(v) ==> number(input_text@) == Some(v),
    {
        parse_number(input_text.as_str())
    }

    /// Like `text_action`, but first looks whether the line would shoot an
    /// arrow from an empty quiver; such a line is refused and changes nothing.
    pub fn text_action_checked(&mut self, text: String, random: &impl Random) -> (done: bool)
        requires
            fit_for_game(random),
        ensures
            done == !arrow_without_quiver(old(self)@, text@),
            done ==> text_step(old(self)@, text@, random, final(self)@),
            !done ==> final(self)@ == old(self)@,
    {
        let (arrows, entered, to_enter) = self.game.quiver();
        if self.game.get_game_state() == GameStates::ShootEnterRoomNumber && arrows == 0 && entered as u16 + 1
            >= to_enter as u16 {
            match self.convert_to_u8(&text) {
                Ok(_) => {
                    return false;
                },
                Err(_) => {},
            }
        }
        self.text_action(text, random);
        true
    }

    /// Takes one line typed by the player and answers it, according to the
    /// question the game is waiting to have answered.
    pub fn text_action(&mut self, text: String, random: &impl Random)
        requires
            fit_for_game(random),
            !arrow_without_quiver(old(self)@, text@),
        ensures
            text_step(old(self)@, text@, random, final(self)@),
    {
        match self.game.get_game_state() {
            GameStates::DoYouWantInstructions => {
                self.answer_instructions(&text, random);
            },
            GameStates::WaitInstructions => {
                self.read_instructions(&text, random);
            },
            GameStates::DoYouWantToMoveOrShoot => {
                self.answer_move_or_shoot(&text, random);
            },
            GameStates::MoveEnterRoomNumber => {
                self.answer_move_room(&text, random);
            },
            GameStates::ShootEnterNumberOfRooms => {
                self.answer_number_of_rooms(&text, random);
            },
            GameStates::ShootEnterRoomNumber => {
                self.answer_arrow_room(&text, random);
            },
            GameStates::GameOver => {
                self.answer_game_over(&text, random);
            },
            GameStates::Restart => {
                self.answer_restart(&text, random);
            },
            _ => {},
        }
    }

    /// The player answers whether the instructions are wanted.
    fn answer_instructions(&mut self, text: &String, random: &impl Random)
        requires
            fit_for_game(random),
            old(self)@.game.state == GameStates::DoYouWantInstructions,
        ensures
            text_step(old(self)@, text@, random, final(self)@),
    {
        proof {
            use_type_invariant(&*self);
            lemma_cast_positions(self@.game.actors);
        }
        let ghost t = self@;
        let ghost g = self@.game;
        let answer_text = read_answer(text);
        if is_char(&answer_text, 'Y') {
            self.next_instruction_text();
            proof {
                use_type_invariant(&*self);
                lemma_action_keeps_dialogue(self@, GameAction::WaitNextInstruction, None, random);
            }
            self.play(GameAction::WaitNextInstruction, None, random);
        } else if is_char(&answer_text, 'N') {
            self.show_your_location();
            self.show_tunnels();
            self.show_dangers_nearby();
            self.show_move_or_shoot();
            proof {
                use_type_invariant(&*self);
                lemma_action_keeps_dialogue(self@, GameAction::MoveOrShoot, None, random);
            }
            self.play(GameAction::MoveOrShoot, None, random);
            proof {
                assert(self@ =~= TextView {
                    game: g.at(GameStates::DoYouWantToMoveOrShoot),
                    output: t.output + status_tunnels_first(g),
                    ..t
                });
            }
        } else {
            self.say("Please answer (Y/N)".to_string());
        }
    }

    /// The player has read a page of the instructions.
    fn read_instructions(&mut self, text: &String, random: &impl Random)
        requires
            fit_for_game(random),
            old(self)@.game.state == GameStates::WaitInstructions,
        ensures
            text_step(old(self)@, text@, random, final(self)@),
    {
        proof {
            use_type_invariant(&*self);
            lemma_cast_positions(self@.game.actors);
        }
        let ghost t = self@;
        let ghost g = self@.game;
        let complete = self.next_instruction_text();
        if complete {
            self.show_your_location();
            self.show_tunnels();
            self.show_dangers_nearby();
            self.show_move_or_shoot();
            proof {
                use_type_invariant(&*self);
                lemma_action_keeps_dialogue(self@, GameAction::MoveOrShoot, None, random);
            }
            self.play(GameAction::MoveOrShoot, None, random);
            proof {
                assert(self@ =~= TextView {
                    instruction_index: page_next_index(t.instruction_index),
                    game: g.at(GameStates::DoYouWantToMoveOrShoot),
                    output: t.output + page_lines(t.instruction_index) + status_tunnels_first(g),
                });
            }
        }
    }

    /// The player chooses to move or to shoot.
    fn answer_move_or_shoot(&mut self, text: &String, random: &impl Random)
        requires
            fit_for_game(random),
            old(self)@.game.state == GameStates::DoYouWantToMoveOrShoot,
        ensures
            text_step(old(self)@, text@, random, final(self)@),
    {
        proof {
            use_type_invariant(&*self);
            lemma_cast_positions(self@.game.actors);
        }
        let answer_text = read_answer(text);
        if is_char(&answer_text, 'M') {
            proof {
                use_type_invariant(&*self);
                lemma_action_keeps_dialogue(self@, GameAction::Move, None, random);
            }
            self.play(GameAction::Move, None, random);
            self.say("WHERE TO:".to_string());
        } else if is_char(&answer_text, 'S') {
            proof {
                use_type_invariant(&*self);
                lemma_action_keeps_dialogue(self@, GameAction::Shoot, None, random);
            }
            self.play(GameAction::Shoot, None, random);
            self.say("NO. OF ROOMS(1-5)".to_string())
        } else {
            self.say("PLEASE ENTER M OR S".to_string());
        }
    }

    /// The player names the room to move to.
    fn answer_move_room(&mut self, text: &String, random: &impl Random)
        requires
            fit_for_game(random),
            old(self)@.game.state == GameStates::MoveEnterRoomNumber,
        ensures
            text_step(old(self)@, text@, random, final(self)@),
    {
        proof {
            use_type_invariant(&*self);
            lemma_cast_positions(self@.game.actors);
        }
        let ghost t = self@;
        let ghost g = self@.game;
        let room_number_parse_result = self.convert_to_u8(text);
        let ghost mut message: Seq<char> = Seq::empty();
        match room_number_parse_result {
            Ok(room_number) => {
                proof {
                    use_type_invariant(&*self);
                    lemma_action_keeps_dialogue(self@, GameAction::MoveToRoom, Some(room_number), random);
                }
                self.play(GameAction::MoveToRoom, Some(room_number), random);
            },
            Err(_) => {
                let error_text = number_error_text(text.as_str());
                proof {
                    message = error_text@;
                }
                self.say(error_text)
            },
        }
        proof {
            if let Some(room) = number(text@) {
                lemma_move_and_shot_settle(g, GameAction::MoveToRoom, room, random, self@.game);
            }
        }
        self.report_move();
        proof {
            if number(text@) is None {
                assert(self@ =~= TextView { output: t.output.push(message) + after_move_lines(g), ..t });
            }
        }
    }

    /// Tells the news after a move, or how the game ended.
    fn report_move(&mut self)
        requires
            old(self)@.game.state != GameStates::GameStart,
        ensures
            final(self)@ == (TextView { output: old(self)@.output + after_move_lines(old(self)@.game), ..old(self)@ }),
    {
        proof {
            use_type_invariant(&*self);
        }
        let ghost moved = self@;
        if self.game.get_game_state() != GameStates::GameOver {
            self.check_bat_move();
            self.check_bumped_wumpus();
            self.show_your_location();
            self.show_dangers_nearby();
            self.show_tunnels();
            self.show_move_or_shoot();
        } else {
            self.check_bat_move();
            self.show_game_over();
        }
        proof {
            assert(self@ =~= TextView { output: moved.output + after_move_lines(moved.game), ..moved });
        }
    }

    /// The player names how many rooms the arrow flies through.
    fn answer_number_of_rooms(&mut self, text: &String, random: &impl Random)
        requires
            fit_for_game(random),
            old(self)@.game.state == GameStates::ShootEnterNumberOfRooms,
        ensures
            text_step(old(self)@, text@, random, final(self)@),
    {
        proof {
            use_type_invariant(&*self);
            lemma_cast_positions(self@.game.actors);
        }
        let ghost t = self@;
        let number_of_rooms_parse_result = self.convert_to_u8(text);
        match number_of_rooms_parse_result {
            Ok(number_of_rooms) => {
                proof {
                    use_type_invariant(&*self);
                    lemma_action_keeps_dialogue(self@, GameAction::ShootNumberOfRooms, Some(number_of_rooms), random);
                }
                self.play(GameAction::ShootNumberOfRooms, Some(number_of_rooms), random);
                self.say("ROOM#".to_string())
            },
            Err(_) => {
                let error_text = number_error_text(text.as_str());
                let ghost message = error_text@;
                self.say(error_text);
                assert(self@ =~= TextView { output: t.output.push(message), ..t });
            },
        }
    }

    /// The player names the next room of the arrow's path.
    fn answer_arrow_room(&mut self, text: &String, random: &impl Random)
        requires
            fit_for_game(random),
            old(self)@.game.state == GameStates::ShootEnterRoomNumber,
            !arrow_without_quiver(old(self)@, text@),
        ensures
            text_step(old(self)@, text@, random, final(self)@),
    {
        proof {
            use_type_invariant(&*self);
            lemma_cast_positions(self@.game.actors);
        }
        let ghost t = self@;
        let room_number_parse_result = self.convert_to_u8(text);
        match room_number_parse_result {
            Ok(room_number) => {
                proof {
                    use_type_invariant(&*self);
                    lemma_action_keeps_dialogue(self@, GameAction::ShootRoomNumber, Some(room_number), random);
                }
                self.play(GameAction::ShootRoomNumber, Some(room_number), random);
                let ghost h = self@.game;
                let ghost shot = self@;
                proof {
                    use_type_invariant(&*self);
                }
                if self.game.get_game_state() == GameStates::GameOver {
                    self.show_game_over();
                    proof {
                        use_type_invariant(&*self);
                        lemma_action_keeps_dialogue(self@, GameAction::Restart, None, random);
                    }
                    self.play(GameAction::Restart, None, random);
                    proof {
                        assert(self@ =~= TextView {
                            game: h.at(GameStates::Restart),
                            output: t.output + game_over_lines(h.game_over_reason),
                            ..t
                        });
                    }
                } else if self.game.is_all_rooms_entered() {
                    self.say("MISSED".to_string());
                    self.show_your_location();
                    self.show_dangers_nearby();
                    self.show_tunnels();
                    self.show_move_or_shoot();
                    proof {
                        assert(self@ =~= TextView {
                            game: h,
                            output: t.output + seq!["MISSED"@] + status_dangers_first(h),
                            ..t
                        });
                    }
                } else if !self.game.is_all_rooms_entered() {
                    self.say("ROOM#".to_string())
                }
            },
            Err(_) => {
                let error_text = number_error_text(text.as_str());
                let ghost message = error_text@;
                self.say(error_text);
                assert(self@ =~= TextView { output: t.output.push(message), ..t });
            },
        }
    }

    /// Any line after the end of a game: the ending is told again and a restart offered.
    fn answer_game_over(&mut self, text: &String, random: &impl Random)
        requires
            fit_for_game(random),
            old(self)@.game.state == GameStates::GameOver,
        ensures
            text_step(old(self)@, text@, random, final(self)@),
    {
        proof {
            use_type_invariant(&*self);
            lemma_cast_positions(self@.game.actors);
        }
        self.show_game_over();
        proof {
            use_type_invariant(&*self);
            lemma_action_keeps_dialogue(self@, GameAction::Restart, None, random);
        }
        self.play(GameAction::Restart, None, random)
    }

    /// The player answers whether to restart with the same set-up.
    fn answer_restart(&mut self, text: &String, random: &impl Random)
        requires
            fit_for_game(random),
            old(self)@.game.state == GameStates::Restart,
        ensures
            text_step(old(self)@, text@, random, final(self)@),
    {
        proof {
            use_type_invariant(&*self);
            lemma_cast_positions(self@.game.actors);
        }
        let ghost t = self@;
        let ghost g = self@.game;
        self.show_restart();
        let answer_text = read_answer(text);
        if is_char(&answer_text, 'Y') {
            proof {
                use_type_invariant(&*self);
                lemma_action_keeps_dialogue(self@, GameAction::RestartSameSetup, None, random);
            }
            self.play(GameAction::RestartSameSetup, None, random);
            proof {
                use_type_invariant(&*self);
            }
            self.show_your_location();
            self.show_dangers_nearby();
            self.show_tunnels();
            self.show_move_or_shoot();
            proof {
                let h = g.restored();
                assert(self@ =~= TextView {
                    game: h,
                    output: t.output.push(restart_question()) + status_dangers_first(h),
                    ..t
                });
            }
        } else if is_char(&answer_text, 'N') {
            proof {
                use_type_invariant(&*self);
                lemma_action_keeps_dialogue(self@, GameAction::RestartClearAll, None, random);
            }
            self.play(GameAction::RestartClearAll, None, random);
            proof {
                use_type_invariant(&*self);
            }
            self.show_your_location();
            self.show_dangers_nearby();
            self.show_tunnels();
            self.show_move_or_shoot();
            proof {
                assert(self@ =~= TextView {
                    game: self@.game,
                    output: t.output.push(restart_question()) + status_dangers_first(self@.game),
                    ..t
                });
            }
        } else if is_char(&answer_text, 'Q') {
            proof {
                use_type_invariant(&*self);
                lemma_action_keeps_dialogue(self@, GameAction::Quit, None, random);
            }
            self.play(GameAction::Quit, None, random);
        } else {
            self.say("PLEASE ANSWER Y,N OR Q".to_string());
            proof {
                use_type_invariant(&*self);
                lemma_action_keeps_dialogue(self@, GameAction::Restart, None, random);
            }
            self.play(GameAction::Restart, None, random);
            proof {
                assert(self@ =~= TextView {
                    output: t.output.push(restart_question()).push("PLEASE ANSWER Y,N OR Q"@),
                    ..t
                });
            }
        }
    }

    /// Writes one line.
    fn say(&mut self, line: String)
        ensures
            final(self)@ == (TextView { output: old(self)@.output.push(line@), ..old(self)@ }),
    {
        proof {
            use_type_invariant(&*self);
        }
        let ghost before = self.output@;
        let mut output: Vec<String> = Vec::new();
        std::mem::swap(&mut output, &mut self.output);
        output.push(line);
        self.output = output;
        assert(self.output@.map_values(|s: String| s@) =~= before.map_values(|s: String| s@).push(line@));
    }

    /// Carries out one game action, where every outcome keeps the dialogue consistent.
    fn play(&mut self, action: GameAction, action_count: Option<u8>, random: &impl Random)
        requires
            fit_for_game(random),
            can_act(old(self)@.game, action, action_count),
            forall|h: GameView| #[trigger] game_step(old(self)@.game, action, action_count, random, h)
                ==> dialogue_wf(TextView { game: h, ..old(self)@ }),
        ensures
            game_step(old(self)@.game, action, action_count, random, final(self)@.game),
            final(self)@ == (TextView { game: final(self)@.game, ..old(self)@ }),
    {
        proof {
            use_type_invariant(&*self);
        }
        let mut game = Game::new();
        std::mem::swap(&mut game, &mut self.game);
        game.game_action(action, action_count, random);
        assert(game_step(old(self)@.game, action, action_count, random, game@));
        self.game = game;
    }
}

} // verus!
