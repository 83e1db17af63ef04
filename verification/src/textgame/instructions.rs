//! The instructions of the game, in pages that end with "PRESS ENTER TO CONTINUE".

use vstd::prelude::*;

verus! {

/// How many lines the instructions have.
pub const INSTRUCTION_LINES: usize = 48;

/// Line `i` of the instructions.
pub open spec fn instruction(i: int) -> Seq<char> {
    if i == 0 {
        "THE WUMPUS LIVES IN A CAVE OF 20 ROOMS. EACH ROOM"@
    } else if i == 1 {
        "HAS 3 TUNNELS LEADING TO OTHER ROOMS. (LOOK AT A"@
    } else if i == 2 {
        "DODECAHEDRON TO SEE HOW THIS WORKS - IF YOU DONT'T"@
    } else if i == 3 {
        "KNOW WHAT A DEDECHARON IS, ASK SOMEONE)"@
    } else if i == 4 {
        ""@
    } else if i == 5 {
        "     HAZARDS"@
    } else if i == 6 {
        "BOTTOMLESS PITS - TWO ROOMS HAVE BOTTOMLESS PITS IN THEM"@
    } else if i == 7 {
        "     IF YOU GO THERE YOU FALL INTO THE PIT (& LOSE!)"@
    } else if i == 8 {
        "SUPERBATS - TWO OTHER ROOMS HAVE SUPER BATS. IF YOU"@
    } else if i == 9 {
        "     GO THERE, A BAT GRABS YOU AND TAKES YOU TO SOME OTHER"@
    } else if i == 10 {
        "     ROOM AT RANDOM (WHICH MIGHT BE TOUBLESOME)"@
    } else if i == 11 {
        ""@
    } else if i == 12 {
        "                  PRESS ENTER TO CONTINUE"@
    } else if i == 13 {
        "     WUMPUS"@
    } else if i == 14 {
        "THE WUMPUS IS NOT BOTHERED BY THE HAZARDS (HE HAS SUCKER"@
    } else if i == 15 {
        "FEET AND IS TO BIG FOR A BAT TO LIFT). USUALLY"@
    } else if i == 16 {
        "HE IS ASLEEP. TWO THINGS THAT CAN WAKE HIM UP: YOUR ENTERING"@
    } else if i == 17 {
        "HIS ROOM OR YOUR SHOOTING AN ARROW"@
    } else if i == 18 {
        "   IF THE WUMPUS WAKES, HE MOVES (P=75) ONE ROOM"@
    } else if i == 19 {
        "OR STAYS STILL (P=25). AFTER THAT, IF HE IS WHERE YOU"@
    } else if i == 20 {
        "ARE, HE EATS YOU UP (& YOU LOOSE)"@
    } else if i == 21 {
        ""@
    } else if i == 22 {
        "                  PRESS ENTER TO CONTINUE"@
    } else if i == 23 {
        "     YOU"@
    } else if i == 24 {
        "EACH TURN YOU MAY MOVE OR SHOOT A CROOKED ARROW"@
    } else if i == 25 {
        ""@
    } else if i == 26 {
        "     MOVING: YOU CAN GO ONE ROOM (THRU ONE TUNNEL)"@
    } else if i == 27 {
        "     ARROWS: YOU HAVE 5 ARROWS. YOU LOSE WHEN YOU RUN OUT."@
    } else if i == 28 {
        "     EACH ARROW CAN GO FROM 1 TO 5 ROOMS. YOU AIM BY TELLING"@
    } else if i == 29 {
        "     THE COMPUTER THE ROOMS YOU WANT THE ARROW TO GO TO."@
    } else if i == 30 {
        "     IF THE ARROW CAN´T GO THAT WAY (I.E, NO TUNNEL) IT MOVES"@
    } else if i == 31 {
        "     AT RANDOM TO THE NEXT ROOM"@
    } else if i == 32 {
        ""@
    } else if i == 33 {
        "       IF THE ARROW HITS THE WUMPUS, YOU WIN."@
    } else if i == 34 {
        "       IF THE ARROW HITS YOU, YOU LOSE"@
    } else if i == 35 {
        ""@
    } else if i == 36 {
        "                  PRESS ENTER TO CONTINUE"@
    } else if i == 37 {
        "     WARNINGS:"@
    } else if i == 38 {
        "     WHEN YOU ARE ONE ROOM AWAY FROM WUMPUS OR HAZARD,"@
    } else if i == 39 {
        "     THE COMPUTER SAYS:"@
    } else if i == 40 {
        ""@
    } else if i == 41 {
        "WUMPUS-    'I SMELL A WUMPUS'"@
    } else if i == 42 {
        "BAT   -    'BATS NEARBY'"@
    } else if i == 43 {
        "PIT   -    'I FEEL A DRAFT"@
    } else if i == 44 {
        ""@
    } else if i == 45 {
        ""@
    } else if i == 46 {
        "                       HUNT THE WUMPUS"@
    } else {
        ""@
    }
}

/// Line `i` of the instructions.
pub fn instruction_line(i: usize) -> (line: &'static str)
    requires
        i < INSTRUCTION_LINES,
    ensures
        line@ == instruction(i as int),
{
    match i {
        0 => "THE WUMPUS LIVES IN A CAVE OF 20 ROOMS. EACH ROOM",
        1 => "HAS 3 TUNNELS LEADING TO OTHER ROOMS. (LOOK AT A",
        2 => "DODECAHEDRON TO SEE HOW THIS WORKS - IF YOU DONT'T",
        3 => "KNOW WHAT A DEDECHARON IS, ASK SOMEONE)",
        4 => "",
        5 => "     HAZARDS",
        6 => "BOTTOMLESS PITS - TWO ROOMS HAVE BOTTOMLESS PITS IN THEM",
        7 => "     IF YOU GO THERE YOU FALL INTO THE PIT (& LOSE!)",
        8 => "SUPERBATS - TWO OTHER ROOMS HAVE SUPER BATS. IF YOU",
        9 => "     GO THERE, A BAT GRABS YOU AND TAKES YOU TO SOME OTHER",
        10 => "     ROOM AT RANDOM (WHICH MIGHT BE TOUBLESOME)",
        11 => "",
        12 => "                  PRESS ENTER TO CONTINUE",
        13 => "     WUMPUS",
        14 => "THE WUMPUS IS NOT BOTHERED BY THE HAZARDS (HE HAS SUCKER",
        15 => "FEET AND IS TO BIG FOR A BAT TO LIFT). USUALLY",
        16 => "HE IS ASLEEP. TWO THINGS THAT CAN WAKE HIM UP: YOUR ENTERING",
        17 => "HIS ROOM OR YOUR SHOOTING AN ARROW",
        18 => "   IF THE WUMPUS WAKES, HE MOVES (P=75) ONE ROOM",
        19 => "OR STAYS STILL (P=25). AFTER THAT, IF HE IS WHERE YOU",
        20 => "ARE, HE EATS YOU UP (& YOU LOOSE)",
        21 => "",
        22 => "                  PRESS ENTER TO CONTINUE",
        23 => "     YOU",
        24 => "EACH TURN YOU MAY MOVE OR SHOOT A CROOKED ARROW",
        25 => "",
        26 => "     MOVING: YOU CAN GO ONE ROOM (THRU ONE TUNNEL)",
        27 => "     ARROWS: YOU HAVE 5 ARROWS. YOU LOSE WHEN YOU RUN OUT.",
        28 => "     EACH ARROW CAN GO FROM 1 TO 5 ROOMS. YOU AIM BY TELLING",
        29 => "     THE COMPUTER THE ROOMS YOU WANT THE ARROW TO GO TO.",
        30 => "     IF THE ARROW CAN´T GO THAT WAY (I.E, NO TUNNEL) IT MOVES",
        31 => "     AT RANDOM TO THE NEXT ROOM",
        32 => "",
        33 => "       IF THE ARROW HITS THE WUMPUS, YOU WIN.",
        34 => "       IF THE ARROW HITS YOU, YOU LOSE",
        35 => "",
        36 => "                  PRESS ENTER TO CONTINUE",
        37 => "     WARNINGS:",
        38 => "     WHEN YOU ARE ONE ROOM AWAY FROM WUMPUS OR HAZARD,",
        39 => "     THE COMPUTER SAYS:",
        40 => "",
        41 => "WUMPUS-    'I SMELL A WUMPUS'",
        42 => "BAT   -    'BATS NEARBY'",
        43 => "PIT   -    'I FEEL A DRAFT",
        44 => "",
        45 => "",
        46 => "                       HUNT THE WUMPUS",
        _ => "",
    }
}

} // verus!
