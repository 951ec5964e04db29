//! The text canvas a board is drawn on: a frame of box-drawing characters with
//! one character cell for each cell of the board.

use crate::board::{Board, BoardState};
use crate::grid::{grid_view, Slot};
use vstd::prelude::*;
use vstd::std_specs::iter::IteratorSpec;

verus! {

broadcast use vstd::string::group_string_axioms;

/// The frame with every cell empty: 19 lines of 37 characters, each but the
/// last followed by a line break.
pub const CANVAS: &'static str = "\
╔═══╤═══╤═══╦═══╤═══╤═══╦═══╤═══╤═══╗\n\
║   │   │   ║   │   │   ║   │   │   ║\n\
╟───┼───┼───╫───┼───┼───╫───┼───┼───╢\n\
║   │   │   ║   │   │   ║   │   │   ║\n\
╟───┼───┼───╫───┼───┼───╫───┼───┼───╢\n\
║   │   │   ║   │   │   ║   │   │   ║\n\
╠═══╪═══╪═══╬═══╪═══╪═══╬═══╪═══╪═══╣\n\
║   │   │   ║   │   │   ║   │   │   ║\n\
╟───┼───┼───╫───┼───┼───╫───┼───┼───╢\n\
║   │   │   ║   │   │   ║   │   │   ║\n\
╟───┼───┼───╫───┼───┼───╫───┼───┼───╢\n\
║   │   │   ║   │   │   ║   │   │   ║\n\
╠═══╪═══╪═══╬═══╪═══╪═══╬═══╪═══╪═══╣\n\
║   │   │   ║   │   │   ║   │   │   ║\n\
╟───┼───┼───╫───┼───┼───╫───┼───┼───╢\n\
║   │   │   ║   │   │   ║   │   │   ║\n\
╟───┼───┼───╫───┼───┼───╫───┼───┼───╢\n\
║   │   │   ║   │   │   ║   │   │   ║\n\
╚═══╧═══╧═══╩═══╧═══╧═══╩═══╧═══╧═══╝";

/// The characters from the start of one canvas line to the start of the next.
pub const ROW_LENGTH: usize = 38;

/// Assumed of the standard library, not proved here: `String::push` appends
/// the character to the end of the string and changes nothing else of it.
pub assume_specification[ String::push ](s: &mut String, ch: char)
    ensures
        final(s)@ == old(s)@.push(ch),
;

/// A place on the canvas: `y` counts the lines from the top, `x` the characters
/// from the left, both from 0.
pub struct WindowPosition {
    pub x: i32,
    pub y: i32,
}

/// The canvas line that shows the given row of the board.
pub open spec fn canvas_line(row: int) -> int {
    2 * row + 1
}

/// The place in a canvas line that shows the given column of the board.
pub open spec fn canvas_column(column: int) -> int {
    4 * column + 2
}

/// How many characters of the canvas come before the one that shows the given
/// cell.
pub open spec fn canvas_offset(row: int, column: int) -> int {
    canvas_line(row) * 38 + canvas_column(column)
}

/// The character a cell is shown as: its digit, or a space where it is empty.
pub open spec fn number_char(number: u8) -> char {
    if number == 0 {
        ' '
    } else {
        (number + 48) as char
    }
}

/// The canvas with the numbers of the grid written into it: the character at
/// every second place of every second line shows a cell, all others are those
/// of the empty frame.
pub open spec fn drawn(grid: Seq<Seq<Slot>>) -> Seq<char> {
    Seq::new(
        CANVAS@.len(),
        |i: int|
            {
                let line = i / 38;
                let place = i % 38;
                if line % 2 == 1 && place % 4 == 2 {
                    number_char(grid[line / 2][place / 4].number)
                } else {
                    CANVAS@[i]
                }
            },
    )
}

/// The canvas is 721 characters long. What a string literal holds is known
/// only where the literal itself is revealed, so the canvas stands here once
/// more; a copy that differed from `CANVAS` would prove nothing of it.
pub proof fn lemma_canvas_length()
    ensures
        CANVAS@.len() == 721,
{
    reveal_strlit("\
╔═══╤═══╤═══╦═══╤═══╤═══╦═══╤═══╤═══╗\n\
║   │   │   ║   │   │   ║   │   │   ║\n\
╟───┼───┼───╫───┼───┼───╫───┼───┼───╢\n\
║   │   │   ║   │   │   ║   │   │   ║\n\
╟───┼───┼───╫───┼───┼───╫───┼───┼───╢\n\
║   │   │   ║   │   │   ║   │   │   ║\n\
╠═══╪═══╪═══╬═══╪═══╪═══╬═══╪═══╪═══╣\n\
║   │   │   ║   │   │   ║   │   │   ║\n\
╟───┼───┼───╫───┼───┼───╫───┼───┼───╢\n\
║   │   │   ║   │   │   ║   │   │   ║\n\
╟───┼───┼───╫───┼───┼───╫───┼───┼───╢\n\
║   │   │   ║   │   │   ║   │   │   ║\n\
╠═══╪═══╪═══╬═══╪═══╪═══╬═══╪═══╪═══╣\n\
║   │   │   ║   │   │   ║   │   │   ║\n\
╟───┼───┼───╫───┼───┼───╫───┼───┼───╢\n\
║   │   │   ║   │   │   ║   │   │   ║\n\
╟───┼───┼───╫───┼───┼───╫───┼───┼───╢\n\
║   │   │   ║   │   │   ║   │   │   ║\n\
╚═══╧═══╧═══╩═══╧═══╧═══╩═══╧═══╧═══╝");
}

/// The drawing and the cursor agree on where a cell is: the drawn canvas shows
/// the cell of row `row` and column `column` at the place `canvas_offset` gives,
/// which lies on the canvas.
pub proof fn lemma_cell_is_drawn_at_its_offset(grid: Seq<Seq<Slot>>, row: int, column: int)
    requires
        0 <= row < 9,
        0 <= column < 9,
    ensures
        0 <= canvas_offset(row, column) < drawn(grid).len(),
        drawn(grid)[canvas_offset(row, column)] == number_char(grid[row][column].number),
{
    lemma_canvas_length();
}

/// A board as it is shown on the canvas.
pub struct BoardView<'a> {
    board: &'a Board,
}

impl<'a> View for BoardView<'a> {
    type V = BoardState;

    closed spec fn view(&self) -> BoardState {
        self.board@
    }
}

impl<'a> BoardView<'a> {
    pub fn new(board: &'a Board) -> (view: BoardView<'a>)
        ensures
            view@ == board@,
    {
        BoardView { board }
    }

    /// The canvas with the numbers of the board written into it.
    pub fn generate_string(&self) -> (canvas: String)
        ensures
            canvas@ == drawn(self@.slots),
    {
        generate_board_string(self.board)
    }

    /// Where on the canvas the given cell of the board is shown.
    fn convert_to_window_position(row: usize, column: usize) -> (at: WindowPosition)
        requires
            row < 9,
            column < 9,
        ensures
            at.x == canvas_column(column as int),
            at.y == canvas_line(row as int),
    {
        WindowPosition { x: ((column + 1) * 4 - 2) as i32, y: ((row + 1) * 2 - 1) as i32 }
    }

    /// The character a cell with the given number is shown as.
    fn number_to_char(number: u8) -> (ch: char)
        requires
            number <= 9,
        ensures
            ch == number_char(number),
    {
        if number == 0 {
            return ' ';
        }
        return (number + 48) as char;
    }
}

/// The canvas with the numbers of the board written into it.
pub fn generate_board_string(board: &Board) -> (canvas: String)
    ensures
        canvas@ == drawn(board@.slots),
{
    let slots = board.get_slots();
    let ghost grid = grid_view(*slots);
    let mut canvas = String::new();
    let mut offset: usize = 0;
    proof {
        lemma_canvas_length();
    }
    for ch in chars: CANVAS.chars()
        invariant
            chars.seq() == CANVAS@,
            CANVAS@.len() == 721,
            offset == chars.index(),
            grid == grid_view(*slots),
            grid == board@.slots,
            board@.wf(),
            canvas@ == drawn(grid).take(offset as int),
    {
        let line = offset / ROW_LENGTH;
        let place = offset % ROW_LENGTH;
        let shown = if line % 2 == 1 && place % 4 == 2 {
            assert(grid[(line / 2) as int][(place / 4) as int].wf());
            BoardView::number_to_char(slots[line / 2][place / 4].number)
        } else {
            ch
        };
        assert(drawn(grid).take(offset + 1) =~= drawn(grid).take(offset as int).push(shown));
        canvas.push(shown);
        offset += 1;
    }
    assert(drawn(grid).take(offset as int) =~= drawn(grid));
    canvas
}

/// Where on the canvas the cursor of the board belongs.
pub fn convert_board_position_to_window_position(board: &Board) -> (at: WindowPosition)
    ensures
        at.x == canvas_column(board@.pos.column as int),
        at.y == canvas_line(board@.pos.row as int),
{
    let pos = board.get_pos();
    BoardView::convert_to_window_position(pos.row, pos.column)
}

} // verus!
