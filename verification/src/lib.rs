//! Life War: a two-player variant of Conway's Game of Life played on a
//! square board.  Players first lay out stones in their own half of the
//! board, then take turns placing a stone, after which the whole board
//! evolves by one generation.

mod game;
pub mod rules;
pub mod text;
pub mod protocol;
pub mod session;
pub mod assets;
pub mod laws;
pub mod symmetry;

pub use game::{
    Action, ActionError, Cell, EvolutionStats, Game, GameConfig, GameError, GamePhase,
    GameStatus, Player, Point, TurnResult, MAX_BOARD_SIZE, MIN_BOARD_SIZE,
};
