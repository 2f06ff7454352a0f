//! A compact chess board: pieces, pairs of pieces and squares are each packed
//! into a single byte, and the 64 squares of a board are stored in 32 bytes.

pub mod board;
pub mod double_piece;
pub mod piece;
pub mod pos;

pub use board::Board;
pub use double_piece::DoublePiece;
pub use piece::{Chessman, Piece, Player};
pub use pos::Pos;
