//! A Sudoku board editor core: the 9x9 grid with its cursor, the check for a
//! completed solution, the text canvas the board is drawn on, and the handling
//! of key presses.

pub mod board;
pub mod board_view;
pub mod grid;
pub mod session;
