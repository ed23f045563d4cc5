//! A small turn-based board-game engine: four players, four pieces each, a
//! circular track of ten cells, and a three-phase turn state machine.
pub mod board;
pub mod dice;
pub mod player;
pub mod turn;

pub use board::{Piece, BOARD_SIZE, PIECES_PER_PLAYER, WINNING_POSITION};
pub use dice::roll_dice;
pub use player::{Player, PlayerColor};
pub use turn::{initialize, next_turn, GameState, Phase, StepEvent, MAX_PLAYERS};
