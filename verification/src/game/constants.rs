//! The cave of twenty rooms, the states of a game and what can end one.

use vstd::prelude::*;

verus! {

/// Rooms are numbered from 1; the actors are placed in the rooms below this bound.
pub const MAX_ROOMS: u8 = 20;

/// Where a game stands: which question it waits to have answered.
#[derive(Clone, Copy, PartialEq, Eq, Structural, Debug)]
pub enum GameStates {
    GameStart,
    DoYouWantInstructions,
    WaitInstructions,
    DoYouWantToMoveOrShoot,
    MoveEnterRoomNumber,
    ShootEnterNumberOfRooms,
    ShootEnterRoomNumber,
    GameOver,
    Restart,
}

/// What a player, or the dialogue on the player's behalf, asks the game to do.
#[derive(Clone, Copy, PartialEq, Eq, Structural, Debug)]
pub enum GameAction {
    StartGame,
    WaitNextInstruction,
    MoveOrShoot,
    Move,
    MoveToRoom,
    Shoot,
    ShootNumberOfRooms,
    ShootRoomNumber,
    Restart,
    RestartClearAll,
    RestartSameSetup,
    Quit,
}

/// Why a game ended, or that it has not.
#[derive(Clone, Copy, PartialEq, Eq, Structural, Debug)]
pub enum GameOverReason {
    NotDeadYet,
    WumpusGotYou,
    YouAreOutOfArrows,
    YouFellIntoPit,
    YouShotWumpus,
    YouShotYourself,
}

/// A room of the cave.
pub open spec fn valid_room(room: u8) -> bool {
    1 <= room <= 20
}

/// The three rooms that the tunnels of `room` lead to: the cave is the
/// graph of a dodecahedron.
pub open spec fn maze(room: u8) -> Seq<u8> {
    match room {
        1 => seq![2u8, 5, 8],
        2 => seq![1u8, 3, 10],
        3 => seq![2u8, 4, 12],
        4 => seq![3u8, 5, 14],
        5 => seq![1u8, 4, 6],
        6 => seq![5u8, 7, 15],
        7 => seq![6u8, 8, 17],
        8 => seq![1u8, 7, 9],
        9 => seq![8u8, 10, 18],
        10 => seq![2u8, 9, 11],
        11 => seq![10u8, 12, 19],
        12 => seq![3u8, 11, 13],
        13 => seq![12u8, 14, 20],
        14 => seq![4u8, 13, 15],
        15 => seq![6u8, 14, 16],
        16 => seq![15u8, 17, 20],
        17 => seq![7u8, 16, 18],
        18 => seq![9u8, 17, 19],
        19 => seq![11u8, 18, 20],
        20 => seq![13u8, 16, 19],
        _ => seq![0u8, 0, 0],
    }
}

/// The tunnels out of a room of the cave.
pub fn maze_tunnels(room: u8) -> (tunnels: [u8; 3])
    requires
        valid_room(room),
    ensures
        tunnels@ == maze(room),
{
    let tunnels: [u8; 3] = match room {
        1 => [2, 5, 8],
        2 => [1, 3, 10],
        3 => [2, 4, 12],
        4 => [3, 5, 14],
        5 => [1, 4, 6],
        6 => [5, 7, 15],
        7 => [6, 8, 17],
        8 => [1, 7, 9],
        9 => [8, 10, 18],
        10 => [2, 9, 11],
        11 => [10, 12, 19],
        12 => [3, 11, 13],
        13 => [12, 14, 20],
        14 => [4, 13, 15],
        15 => [6, 14, 16],
        16 => [15, 17, 20],
        17 => [7, 16, 18],
        18 => [9, 17, 19],
        19 => [11, 18, 20],
        _ => [13, 16, 19],
    };
    assert(tunnels@ =~= maze(room));
    tunnels
}

} // verus!
