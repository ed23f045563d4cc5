//! Pieces and the movement rule for a single piece.
use vstd::prelude::*;

verus! {

/// Number of cells on the circular track.
pub const BOARD_SIZE: i32 = 10;

/// Cell on which a piece finishes (it is also the entry cell).
pub const WINNING_POSITION: i32 = 0;

/// Position of a piece that has not entered the track yet.
pub const HOME_POSITION: i32 = -1;

/// Number of pieces owned by each player.
pub const PIECES_PER_PLAYER: usize = 4;

/// One piece of a player.
#[derive(Debug, Clone, Copy, PartialEq, Eq, Structural)]
pub struct Piece {
    pub position: i32,
    pub at_home: bool,
    pub at_end: bool,
}

impl Piece {
    /// A piece is well formed when its position is home or a track cell,
    /// `at_home` says exactly whether it is home, and a finished piece rests
    /// on the winning cell.
    pub open spec fn wf(self) -> bool {
        &&& HOME_POSITION <= self.position < BOARD_SIZE
        &&& self.at_home <==> self.position == HOME_POSITION
        &&& self.at_end ==> self.position == WINNING_POSITION
    }

    /// A fresh piece, waiting at home.
    pub fn new() -> (r: Self)
        ensures
            r == home_piece(),
            r.wf(),
    {
        Piece { position: HOME_POSITION, at_home: true, at_end: false }
    }
}

/// A piece that has not entered the track.
pub open spec fn home_piece() -> Piece {
    Piece { position: HOME_POSITION, at_home: true, at_end: false }
}

/// Whether `p` may be moved with a roll of `roll`: it has not finished, and
/// either it is home and the roll is six, or it is already on the track.
pub open spec fn eligible(p: Piece, roll: int) -> bool {
    &&& !p.at_end
    &&& (p.position == HOME_POSITION && roll == 6) || p.position != HOME_POSITION
}

/// The piece `p` after it has been moved with a roll of `roll`: a home piece
/// enters the track on cell 0; a piece on the track advances by `roll` cells
/// modulo the board size and finishes when it lands on the winning cell.
pub open spec fn moved(p: Piece, roll: int) -> Piece {
    if p.position == HOME_POSITION {
        Piece { position: 0, at_home: false, at_end: p.at_end }
    } else {
        let np = (p.position + roll) % (BOARD_SIZE as int);
        Piece { position: np as i32, at_home: p.at_home, at_end: np == WINNING_POSITION }
    }
}

/// A move keeps a piece well formed.
pub proof fn lemma_moved_wf(p: Piece, roll: int)
    requires
        p.wf(),
        eligible(p, roll),
        1 <= roll <= 6,
    ensures
        moved(p, roll).wf(),
{
}

} // verus!
