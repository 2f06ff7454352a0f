//! The board: 64 squares stored as 32 packed pairs.

use crate::double_piece::DoublePiece;
use crate::piece::{Chessman, Piece, Player};
use crate::pos::Pos;
use vstd::prelude::*;

verus! {

/// The chessman that starts in column `x` of a player's back rank.
pub open spec fn back_rank(x: int) -> Chessman {
    if x == 0 || x == 7 {
        Chessman::Rook
    } else if x == 1 || x == 6 {
        Chessman::Knight
    } else if x == 2 || x == 5 {
        Chessman::Bishop
    } else if x == 3 {
        Chessman::Queen
    } else {
        Chessman::King
    }
}

/// What stands in column `x`, row `y` when a game starts: black's back rank
/// in row 0 and black's pawns in row 1, white's pawns in row 6 and white's
/// back rank in row 7, nothing in between.
pub open spec fn initial_square(x: int, y: int) -> Option<Piece> {
    if y == 0 {
        Some(Piece::spec_new(Player::Black, back_rank(x)))
    } else if y == 1 {
        Some(Piece::spec_new(Player::Black, Chessman::Pawn))
    } else if y == 6 {
        Some(Piece::spec_new(Player::White, Chessman::Pawn))
    } else if y == 7 {
        Some(Piece::spec_new(Player::White, back_rank(x)))
    } else {
        None
    }
}

/// The squares at the start of a game: eight columns of eight rows.
pub open spec fn initial_position() -> Seq<Seq<Option<Piece>>> {
    Seq::new(8, |x: int| Seq::new(8, |y: int| initial_square(x, y)))
}

/// The pair `i` of column `x` when a game starts: pair 0 holds black's back
/// rank above a black pawn, pair 3 a white pawn above white's back rank, and
/// the two pairs in between hold nothing.
pub open spec fn initial_pair(x: int, i: int) -> DoublePiece {
    if i == 0 {
        DoublePiece::spec_new(
            Some(Piece::spec_new(Player::Black, back_rank(x))),
            Some(Piece::spec_new(Player::Black, Chessman::Pawn)),
        )
    } else if i == 3 {
        DoublePiece::spec_new(
            Some(Piece::spec_new(Player::White, Chessman::Pawn)),
            Some(Piece::spec_new(Player::White, back_rank(x))),
        )
    } else {
        DoublePiece::spec_new(None, None)
    }
}

/// Eight columns of eight rows with nothing in them.
pub open spec fn empty_position() -> Seq<Seq<Option<Piece>>> {
    Seq::new(8, |x: int| Seq::new(8, |y: int| None::<Piece>))
}

/// A chess board. Each of its eight columns is stored as four packed pairs:
/// the pair `y / 2` of a column holds row `y` in its top half when `y` is
/// even and in its bottom half when `y` is odd.
#[derive(Clone, Copy, Debug, PartialEq, Eq)]
pub struct Board {
    b: [[DoublePiece; 4]; 8],
}

impl View for Board {
    type V = Seq<Seq<Option<Piece>>>;

    /// The squares of the board: eight columns of eight rows, so that
    /// `board@[x][y]` is what stands in column `x`, row `y`.
    closed spec fn view(&self) -> Seq<Seq<Option<Piece>>> {
        Seq::new(8, |x: int| Seq::new(8, |y: int| self.spec_square(x, y)))
    }
}

impl Board {
    /// The stored pair `i`, from 0 to 3, of column `x`, from 0 to 7.
    pub closed spec fn spec_pair(self, x: int, i: int) -> DoublePiece {
        self.b[x][i]
    }

    /// What the stored pairs hold for column `x`, row `y`: the top half of
    /// the pair `y / 2` for an even row, its bottom half for an odd one.
    pub open spec fn spec_square(self, x: int, y: int) -> Option<Piece> {
        self.spec_pair(x, y / 2).spec_access(
            if y % 2 == 0 {
                1u8
            } else {
                0u8
            },
        )
    }

    /// What stands on a square.
    pub open spec fn spec_at(self, pos: Pos) -> Option<Piece> {
        self@[pos@.0][pos@.1]
    }

    /// One column at the start of a game: the black chessman of the back
    /// rank above a black pawn, two empty pairs, and a white pawn above the
    /// white chessman of the back rank.
    fn home_column(chessman: Chessman) -> (column: [DoublePiece; 4])
        ensures
            column[0] == DoublePiece::spec_new(
                Some(Piece::spec_new(Player::Black, chessman)),
                Some(Piece::spec_new(Player::Black, Chessman::Pawn)),
            ),
            column[1] == DoublePiece::spec_new(None, None),
            column[2] == DoublePiece::spec_new(None, None),
            column[3] == DoublePiece::spec_new(
                Some(Piece::spec_new(Player::White, Chessman::Pawn)),
                Some(Piece::spec_new(Player::White, chessman)),
            ),
    {
        [
            DoublePiece::new(
                Some(Piece::new(Player::Black, chessman)),
                Some(Piece::new(Player::Black, Chessman::Pawn)),
            ),
            DoublePiece::empty(),
            DoublePiece::empty(),
            DoublePiece::new(
                Some(Piece::new(Player::White, Chessman::Pawn)),
                Some(Piece::new(Player::White, chessman)),
            ),
        ]
    }

    /// The board at the start of a game: black's back rank in row 0 and
    /// black's pawns in row 1, white's pawns in row 6 and white's back rank
    /// in row 7, each column stored as the four pairs of `initial_pair`.
    pub fn new() -> (board: Board)
        ensures
            board@ == initial_position(),
            forall|x: int, i: int|
                0 <= x < 8 && 0 <= i < 4 ==> #[trigger] board.spec_pair(x, i) == initial_pair(x, i),
    {
        let board = Board {
            b: [
                Board::home_column(Chessman::Rook),
                Board::home_column(Chessman::Knight),
                Board::home_column(Chessman::Bishop),
                Board::home_column(Chessman::Queen),
                Board::home_column(Chessman::King),
                Board::home_column(Chessman::Bishop),
                Board::home_column(Chessman::Knight),
                Board::home_column(Chessman::Rook),
            ],
        };
        proof {
            assert forall|x: int, y: int| 0 <= x < 8 && 0 <= y < 8 implies #[trigger] board@[x][y]
                == initial_square(x, y) by {
                assert(board.spec_pair(x, y / 2) == initial_pair(x, y / 2));
                Board::lemma_initial_pair(x, y);
            }
            assert(board@ =~~= initial_position());
        }
        board
    }

    /// The board with nothing on it: all of its 32 bytes are zero.
    pub fn new_empty() -> (board: Board)
        ensures
            board@ == empty_position(),
            forall|x: int, i: int|
                0 <= x < 8 && 0 <= i < 4 ==> (#[trigger] board.spec_pair(x, i)).spec_byte() == 0,
    {
        let board = Board { b: [[DoublePiece::empty();4];8] };
        assert(board@ =~~= empty_position());
        board
    }

    /// What stands on a square, if anything: the column and the row of the
    /// square pick one stored pair and one half of it.
    pub fn at(&self, index: Pos) -> (r: Option<Piece>)
        ensures
            r == self.spec_at(index),
            r == self@[index@.0][index@.1],
            r == self.spec_square(index@.0, index@.1),
            r matches Some(p) ==> p.wf(),
            index.wf(),
    {
        proof {
            use_type_invariant(index);
        }
        let x: u8 = index.x();
        let y: u8 = index.y();
        let shift: u8 = (!y) & 0b1;
        let ac_y: u8 = y >> 1;
        proof {
            lemma_row_split(y);
        }
        let pair: DoublePiece = self.b[x as usize][ac_y as usize];
        pair.access(shift)
    }

    /// A board has eight columns of eight rows, whatever stands on it, and
    /// each square is one half of one stored pair: row `y` of a column is the
    /// top half of the pair `y / 2` when `y` is even, its bottom half when
    /// `y` is odd.
    pub proof fn lemma_layout(board: Board)
        ensures
            board@.len() == 8,
            forall|x: int| 0 <= x < 8 ==> (#[trigger] board@[x]).len() == 8,
            forall|x: int, y: int|
                0 <= x < 8 && 0 <= y < 8 ==> #[trigger] board@[x][y] == board.spec_square(x, y),
            forall|x: int, i: int|
                0 <= x < 8 && 0 <= i < 4 ==> board@[x][2 * i] == (#[trigger] board.spec_pair(
                    x,
                    i,
                ))@.0 && board@[x][2 * i + 1] == board.spec_pair(x, i)@.1,
    {
        assert forall|x: int, i: int| 0 <= x < 8 && 0 <= i < 4 implies board@[x][2 * i] == (
        #[trigger] board.spec_pair(x, i))@.0 && board@[x][2 * i + 1] == board.spec_pair(x, i)@.1 by {
            assert((2 * i) / 2 == i && (2 * i + 1) / 2 == i);
        }
    }

    /// The pairs that a game starts with hold the squares that it starts
    /// with.
    pub proof fn lemma_initial_pair(x: int, y: int)
        requires
            0 <= x < 8,
            0 <= y < 8,
        ensures
            initial_pair(x, y / 2).spec_access(
                if y % 2 == 0 {
                    1u8
                } else {
                    0u8
                },
            ) == initial_square(x, y),
            initial_pair(x, y / 2).wf(),
    {
        Piece::lemma_new(Player::Black, back_rank(x));
        Piece::lemma_new(Player::Black, Chessman::Pawn);
        Piece::lemma_new(Player::White, Chessman::Pawn);
        Piece::lemma_new(Player::White, back_rank(x));
        DoublePiece::lemma_new(
            Some(Piece::spec_new(Player::Black, back_rank(x))),
            Some(Piece::spec_new(Player::Black, Chessman::Pawn)),
        );
        DoublePiece::lemma_new(
            Some(Piece::spec_new(Player::White, Chessman::Pawn)),
            Some(Piece::spec_new(Player::White, back_rank(x))),
        );
        DoublePiece::lemma_new(None, None);
    }

    /// On a board with nothing on it, every square is empty.
    pub proof fn lemma_empty_at(board: Board, pos: Pos)
        requires
            board@ == empty_position(),
            pos.wf(),
        ensures
            board.spec_at(pos) is None,
    {
    }

    /// At the start of a game, a square holds what `initial_square` gives for
    /// its column and row. Rows 0 and 1 are black's, rows 6 and 7 white's,
    /// and the pawns stand next to the back ranks.
    pub proof fn lemma_initial_at(board: Board, pos: Pos)
        requires
            board@ == initial_position(),
            pos.wf(),
        ensures
            board.spec_at(pos) == initial_square(pos@.0, pos@.1),
            pos@.1 == 1 ==> board.spec_at(pos) == Some(
                Piece::spec_new(Player::Black, Chessman::Pawn),
            ),
            pos@.1 == 6 ==> board.spec_at(pos) == Some(
                Piece::spec_new(Player::White, Chessman::Pawn),
            ),
            2 <= pos@.1 <= 5 ==> board.spec_at(pos) is None,
    {
    }
}

/// A row below 8 lies in the pair `y / 2` of its column; the complement of
/// its lowest bit is 1 when the row is even and 0 when it is odd.
proof fn lemma_row_split(y: u8)
    by (bit_vector)
    requires
        y < 8,
    ensures
        y >> 1 == y / 2,
        y >> 1 < 4,
        (!y) & 0b1 == (if y % 2 == 0 { 1u8 } else { 0u8 }),
{
}

} // verus!
