//! Players and the movement rules that decide and apply a player's move.
use vstd::prelude::*;
use vstd::array::spec_array_update;
use crate::board::{
    eligible, home_piece, moved, Piece, BOARD_SIZE, HOME_POSITION, PIECES_PER_PLAYER, WINNING_POSITION,
};

verus! {

/// The four player colors; their order is also the turn order.
#[derive(Debug, Clone, Copy, PartialEq, Eq, Structural)]
pub enum PlayerColor {
    Red,
    Green,
    Yellow,
    Blue,
}

/// A player: a color and exactly four pieces, in a fixed order.
#[derive(Debug, Clone, Copy)]
pub struct Player {
    pub color: PlayerColor,
    pub pieces: [Piece; PIECES_PER_PLAYER],
}

/// Whether some piece of `pieces` may be moved with `roll`.
pub open spec fn any_eligible(pieces: Seq<Piece>, roll: int) -> bool {
    exists|i: int| 0 <= i < pieces.len() && #[trigger] eligible(pieces[i], roll)
}

/// Whether `i` is the lowest index of a piece of `pieces` that may be moved
/// with `roll`.
pub open spec fn is_first_eligible(pieces: Seq<Piece>, roll: int, i: int) -> bool {
    &&& 0 <= i < pieces.len()
    &&& eligible(pieces[i], roll)
    &&& forall|j: int| 0 <= j < i ==> !#[trigger] eligible(pieces[j], roll)
}

/// The lowest index of a piece of `pieces` that may be moved with `roll`
/// (meaningful when some piece may be moved).
pub open spec fn first_eligible(pieces: Seq<Piece>, roll: int) -> int {
    choose|i: int| is_first_eligible(pieces, roll, i)
}

/// The player `p` after its turn's move with `roll`: the first eligible
/// piece is moved, or nothing changes when no piece is eligible.
pub open spec fn after_move(p: Player, roll: int) -> Player {
    if any_eligible(p.pieces@, roll) {
        let i = first_eligible(p.pieces@, roll);
        Player { color: p.color, pieces: spec_array_update(p.pieces, i, moved(p.pieces@[i], roll)) }
    } else {
        p
    }
}

/// At most one index is the lowest eligible one.
pub proof fn lemma_first_eligible_unique(pieces: Seq<Piece>, roll: int, i: int, j: int)
    requires
        is_first_eligible(pieces, roll, i),
        is_first_eligible(pieces, roll, j),
    ensures
        i == j,
{
}

/// When some piece is eligible, `first_eligible` names the lowest one.
pub proof fn lemma_first_eligible(pieces: Seq<Piece>, roll: int)
    requires
        any_eligible(pieces, roll),
    ensures
        is_first_eligible(pieces, roll, first_eligible(pieces, roll)),
{
    let k = choose|k: int| 0 <= k < pieces.len() && #[trigger] eligible(pieces[k], roll);
    lemma_lowest_below(pieces, roll, k);
}

proof fn lemma_lowest_below(pieces: Seq<Piece>, roll: int, k: int)
    requires
        0 <= k < pieces.len(),
        eligible(pieces[k], roll),
    ensures
        exists|i: int| is_first_eligible(pieces, roll, i),
    decreases k,
{
    if forall|j: int| 0 <= j < k ==> !#[trigger] eligible(pieces[j], roll) {
        assert(is_first_eligible(pieces, roll, k));
    } else {
        let j = choose|j: int| 0 <= j < k && #[trigger] eligible(pieces[j], roll);
        lemma_lowest_below(pieces, roll, j);
    }
}

/// Whether some piece of `pieces` is home and has not finished.
pub open spec fn some_unfinished_at_home(pieces: Seq<Piece>) -> bool {
    exists|i: int|
        0 <= i < pieces.len() && (#[trigger] pieces[i]).position == HOME_POSITION && !pieces[i].at_end
}

/// Whether some piece of `pieces` is on the track and has not finished.
pub open spec fn some_unfinished_on_track(pieces: Seq<Piece>) -> bool {
    exists|i: int|
        0 <= i < pieces.len() && (#[trigger] pieces[i]).position != HOME_POSITION && !pieces[i].at_end
}

/// Whether every piece of `pieces` has finished.
pub open spec fn all_finished(pieces: Seq<Piece>) -> bool {
    forall|i: int| 0 <= i < pieces.len() ==> (#[trigger] pieces[i]).at_end
}

impl Player {
    /// Every piece of the player has finished.
    pub open spec fn won(self) -> bool {
        all_finished(self.pieces@)
    }

    /// Every piece of the player is well formed.
    pub open spec fn wf(self) -> bool {
        forall|i: int| 0 <= i < PIECES_PER_PLAYER ==> (#[trigger] self.pieces@[i]).wf()
    }

    /// A player of the given color with all four pieces at home.
    pub fn new(color: PlayerColor) -> (r: Self)
        ensures
            r.color == color,
            forall|i: int| 0 <= i < PIECES_PER_PLAYER ==> #[trigger] r.pieces@[i] == home_piece(),
            r.wf(),
    {
        Player { color, pieces: [Piece::new(); PIECES_PER_PLAYER] }
    }

    /// The index of the first piece, in index order, that `dice_roll` allows
    /// to move, if any.
    pub fn first_movable(&self, dice_roll: i32) -> (r: Option<usize>)
        ensures
            r matches Some(k) ==> is_first_eligible(self.pieces@, dice_roll as int, k as int)
                && k == first_eligible(self.pieces@, dice_roll as int),
            r is None <==> !any_eligible(self.pieces@, dice_roll as int),
    {
        let mut i: usize = 0;
        while i < PIECES_PER_PLAYER
            invariant
                i <= PIECES_PER_PLAYER,
                forall|j: int| 0 <= j < i ==> !eligible(#[trigger] self.pieces@[j], dice_roll as int),
            decreases PIECES_PER_PLAYER - i,
        {
            let piece = self.pieces[i];
            if !piece.at_end && (piece.position != HOME_POSITION || dice_roll == 6) {
                proof {
                    assert(is_first_eligible(self.pieces@, dice_roll as int, i as int));
                    lemma_first_eligible(self.pieces@, dice_roll as int);
                    lemma_first_eligible_unique(
                        self.pieces@,
                        dice_roll as int,
                        i as int,
                        first_eligible(self.pieces@, dice_roll as int),
                    );
                }
                return Some(i);
            }
            i = i + 1;
        }
        None
    }

    /// Whether some piece can be moved with `dice_roll`.
    pub fn can_move(&self, dice_roll: i32) -> (r: bool)
        ensures
            r == any_eligible(self.pieces@, dice_roll as int),
            dice_roll == 6 && some_unfinished_at_home(self.pieces@) ==> r,
            dice_roll != 6 ==> (r == some_unfinished_on_track(self.pieces@)),
    {
        let mut i: usize = 0;
        while i < PIECES_PER_PLAYER
            invariant
                i <= PIECES_PER_PLAYER,
                forall|j: int| 0 <= j < i ==> !eligible(#[trigger] self.pieces@[j], dice_roll as int),
            decreases PIECES_PER_PLAYER - i,
        {
            let piece = self.pieces[i];
            if !piece.at_end {
                if piece.position == HOME_POSITION && dice_roll == 6 {
                    assert(eligible(self.pieces@[i as int], dice_roll as int));
                    return true;
                } else if piece.position != HOME_POSITION {
                    assert(eligible(self.pieces@[i as int], dice_roll as int));
                    return true;
                }
            }
            i = i + 1;
        }
        false
    }

    /// Moves the first piece, in index order, that `dice_roll` allows to move,
    /// and says whether a piece was moved.
    pub fn move_piece(&mut self, dice_roll: i32) -> (r: bool)
        requires
            old(self).wf(),
            1 <= dice_roll <= 6,
        ensures
            *final(self) == after_move(*old(self), dice_roll as int),
            final(self).color == old(self).color,
            final(self).wf(),
            r == any_eligible(old(self).pieces@, dice_roll as int),
            r ==> exists|i: int|
                is_first_eligible(old(self).pieces@, dice_roll as int, i)
                    && final(self).pieces@ == old(self).pieces@.update(
                    i,
                    moved(old(self).pieces@[i], dice_roll as int),
                ),
            !r ==> final(self).pieces@ == old(self).pieces@,
            forall|i: int|
                0 <= i < PIECES_PER_PLAYER && (#[trigger] old(self).pieces@[i]).at_end
                    ==> final(self).pieces@[i] == old(self).pieces@[i],
    {
        let mut i: usize = 0;
        while i < PIECES_PER_PLAYER
            invariant
                i <= PIECES_PER_PLAYER,
                *self == *old(self),
                old(self).wf(),
                1 <= dice_roll <= 6,
                forall|j: int| 0 <= j < i ==> !eligible(#[trigger] self.pieces@[j], dice_roll as int),
            decreases PIECES_PER_PLAYER - i,
        {
            let mut piece = self.pieces[i];
            if !piece.at_end {
                if piece.position == HOME_POSITION && dice_roll == 6 {
                    piece.position = 0;
                    piece.at_home = false;
                    self.pieces[i] = piece;
                    proof {
                        lemma_moved_keeps_wf(*old(self), i as int, dice_roll as int);
                        assert(is_first_eligible(old(self).pieces@, dice_roll as int, i as int));
                        lemma_first_eligible(old(self).pieces@, dice_roll as int);
                        lemma_first_eligible_unique(
                            old(self).pieces@,
                            dice_roll as int,
                            i as int,
                            first_eligible(old(self).pieces@, dice_roll as int),
                        );
                        assert(self.pieces@ =~= old(self).pieces@.update(
                            i as int,
                            moved(old(self).pieces@[i as int], dice_roll as int),
                        ));
                    }
                    return true;
                } else if piece.position != HOME_POSITION {
                    piece.position = (piece.position + dice_roll) % BOARD_SIZE;
                    if piece.position == WINNING_POSITION {
                        piece.at_end = true;
                    }
                    self.pieces[i] = piece;
                    proof {
                        lemma_moved_keeps_wf(*old(self), i as int, dice_roll as int);
                        assert(is_first_eligible(old(self).pieces@, dice_roll as int, i as int));
                        lemma_first_eligible(old(self).pieces@, dice_roll as int);
                        lemma_first_eligible_unique(
                            old(self).pieces@,
                            dice_roll as int,
                            i as int,
                            first_eligible(old(self).pieces@, dice_roll as int),
                        );
                        assert(self.pieces@ =~= old(self).pieces@.update(
                            i as int,
                            moved(old(self).pieces@[i as int], dice_roll as int),
                        ));
                    }
                    return true;
                }
            }
            i = i + 1;
        }
        false
    }

    /// Whether every piece of the player has finished.
    pub fn has_won(&self) -> (r: bool)
        ensures
            r == self.won(),
            r <==> forall|i: int| 0 <= i < PIECES_PER_PLAYER ==> (#[trigger] self.pieces@[i]).at_end,
    {
        let mut i: usize = 0;
        while i < PIECES_PER_PLAYER
            invariant
                i <= PIECES_PER_PLAYER,
                forall|j: int| 0 <= j < i ==> (#[trigger] self.pieces@[j]).at_end,
            decreases PIECES_PER_PLAYER - i,
        {
            if !self.pieces[i].at_end {
                return false;
            }
            i = i + 1;
        }
        true
    }
}

/// Replacing the first eligible piece by its moved form keeps a player well
/// formed.
proof fn lemma_moved_keeps_wf(p: Player, i: int, roll: int)
    requires
        p.wf(),
        0 <= i < PIECES_PER_PLAYER,
        eligible(p.pieces@[i], roll),
        1 <= roll <= 6,
    ensures
        forall|j: int| 0 <= j < PIECES_PER_PLAYER ==> (#[trigger] p.pieces@.update(i, moved(p.pieces@[i], roll))[j]).wf(),
{
    crate::board::lemma_moved_wf(p.pieces@[i], roll);
}

} // verus!
