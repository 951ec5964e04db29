//! The board: the grid of cells together with the cursor that selects the cell
//! to edit.

use crate::grid::{grid_view, is_grid, is_solved, lemma_blank_cell_not_solved, solved, Slot};
use vstd::prelude::*;

verus! {

/// A cell of the board by row and column, each counted from 0 to 8.
#[derive(Clone, Copy, Debug)]
pub struct Position {
    pub row: usize,
    pub column: usize,
}

/// The four ways the cursor moves.
#[derive(Clone, Copy, Debug)]
pub enum Direction {
    Up,
    Down,
    Left,
    Right,
}

/// Why a write to the board was refused.
#[derive(Clone, Copy, PartialEq, Eq, Debug)]
pub enum Error {
    /// The cell under the cursor was filled in by the puzzle and cannot be
    /// written to.
    SlotCannotModify,
}

/// The grid every new game starts from: a finished solution with the one cell
/// in row 2, column 6 left open.
pub const PUZZLE: [[u8; 9]; 9] = [
    [5, 1, 3, 6, 8, 7, 2, 4, 9],
    [8, 4, 9, 5, 2, 1, 6, 3, 7],
    [2, 6, 7, 3, 4, 9, 0, 8, 1],
    [1, 5, 8, 4, 6, 3, 9, 7, 2],
    [9, 7, 4, 2, 1, 8, 3, 6, 5],
    [3, 2, 6, 7, 9, 5, 4, 1, 8],
    [7, 8, 2, 9, 3, 4, 1, 5, 6],
    [6, 3, 5, 1, 7, 2, 8, 9, 4],
    [4, 9, 1, 8, 5, 6, 7, 2, 3],
];

/// Every entry of a puzzle is a digit, or 0 for a cell left open.
pub open spec fn is_seed(seed: [[u8; 9]; 9]) -> bool {
    forall|row: int, column: int| 0 <= row < 9 && 0 <= column < 9 ==> #[trigger] seed[row][column] <= 9
}

/// What a board is, mathematically: nine rows of nine cells, and the cursor.
pub struct BoardState {
    pub slots: Seq<Seq<Slot>>,
    pub pos: Position,
}

impl BoardState {
    /// The grid is 9x9, every cell is well formed, and the cursor is on the
    /// grid.
    pub open spec fn wf(self) -> bool {
        &&& is_grid(self.slots)
        &&& forall|row: int, column: int|
            0 <= row < 9 && 0 <= column < 9 ==> (#[trigger] self.slots[row][column]).wf()
        &&& self.pos.row < 9
        &&& self.pos.column < 9
    }

    /// The board with every cell empty and editable, the cursor in the top left
    /// corner.
    pub open spec fn empty() -> BoardState {
        BoardState {
            slots: Seq::new(9, |row: int| Seq::new(9, |column: int| Slot::blank())),
            pos: Position { row: 0, column: 0 },
        }
    }

    /// The board a puzzle starts as: its digits filled in and fixed, its zeros
    /// left empty and editable, the cursor in the top left corner.
    pub open spec fn seeded(seed: [[u8; 9]; 9]) -> BoardState {
        BoardState {
            slots: Seq::new(9, |row: int| Seq::new(9, |column: int| Slot::seeded(seed[row][column]))),
            pos: Position { row: 0, column: 0 },
        }
    }

    /// The cell under the cursor.
    pub open spec fn current(self) -> Slot {
        self.slots[self.pos.row as int][self.pos.column as int]
    }

    /// The board with the cursor put on the given cell; a cell off the grid
    /// leaves the cursor where it is.
    pub open spec fn at(self, row: usize, column: usize) -> BoardState {
        if row >= 9 || column >= 9 {
            self
        } else {
            BoardState { pos: Position { row, column }, ..self }
        }
    }

    /// The board with the cursor one step further in the given direction; at
    /// the edge of the grid the cursor stays.
    pub open spec fn moved(self, direction: Direction) -> BoardState {
        let Position { row, column } = self.pos;
        match direction {
            Direction::Up => if row == 0 {
                self
            } else {
                BoardState { pos: Position { row: (row - 1) as usize, column }, ..self }
            },
            Direction::Down => if row >= 8 {
                self
            } else {
                BoardState { pos: Position { row: (row + 1) as usize, column }, ..self }
            },
            Direction::Left => if column == 0 {
                self
            } else {
                BoardState { pos: Position { row, column: (column - 1) as usize }, ..self }
            },
            Direction::Right => if column >= 8 {
                self
            } else {
                BoardState { pos: Position { row, column: (column + 1) as usize }, ..self }
            },
        }
    }

    /// The board after the given moves, made one after the other.
    pub open spec fn moved_along(self, moves: Seq<Direction>) -> BoardState
        decreases moves.len(),
    {
        if moves.len() == 0 {
            self
        } else {
            self.moved_along(moves.drop_last()).moved(moves.last())
        }
    }

    /// The number under the cursor, or nothing where the cell is empty.
    pub open spec fn number(self) -> Option<u8> {
        if self.current().number == 0 {
            None
        } else {
            Some(self.current().number)
        }
    }

    /// The board with `number` in the cell under the cursor, all else as it was.
    pub open spec fn with_number(self, number: u8) -> BoardState {
        let row = self.pos.row as int;
        let column = self.pos.column as int;
        BoardState {
            slots: self.slots.update(
                row,
                self.slots[row].update(column, Slot { number, ..self.slots[row][column] }),
            ),
            ..self
        }
    }

    /// What writing `number` at the cursor leads to: the board with that number
    /// where the cell is editable, a refusal where the puzzle fixed it.
    pub open spec fn write(self, number: u8) -> Result<BoardState, Error> {
        if self.current().modifiable {
            Ok(self.with_number(number))
        } else {
            Err(Error::SlotCannotModify)
        }
    }

    /// Every row, column and box of the grid holds exactly the digits 1 to 9.
    pub open spec fn solved(self) -> bool {
        solved(self.slots)
    }
}

/// Whether the cursor stands at the edge of the grid that lies in the given
/// direction.
pub open spec fn at_edge(pos: Position, direction: Direction) -> bool {
    match direction {
        Direction::Up => pos.row == 0,
        Direction::Down => pos.row == 8,
        Direction::Left => pos.column == 0,
        Direction::Right => pos.column == 8,
    }
}

/// On a board fresh from a puzzle, exactly the cells that the puzzle filled in
/// are fixed: a write to one of them is refused, a write to any other cell is
/// taken.
pub proof fn lemma_seed_fixes_its_digits(seed: [[u8; 9]; 9], row: usize, column: usize, number: u8)
    requires
        row < 9,
        column < 9,
    ensures
        BoardState::seeded(seed).slots[row as int][column as int].modifiable == (seed[row as int][column as int]
            == 0),
        seed[row as int][column as int] != 0 ==> BoardState::seeded(seed).at(row, column).write(number)
            == Err::<BoardState, Error>(Error::SlotCannotModify),
        seed[row as int][column as int] == 0 ==> BoardState::seeded(seed).at(row, column).write(number) is Ok,
{
}

/// However the cursor is moved, it stays on the grid, and no cell changes.
pub proof fn lemma_moves_keep_cursor_on_grid(state: BoardState, moves: Seq<Direction>)
    requires
        state.wf(),
    ensures
        state.moved_along(moves).wf(),
        state.moved_along(moves).pos.row < 9,
        state.moved_along(moves).pos.column < 9,
        state.moved_along(moves).slots == state.slots,
    decreases moves.len(),
{
    if moves.len() > 0 {
        lemma_moves_keep_cursor_on_grid(state, moves.drop_last());
    }
}

/// A move against the edge that the cursor stands at changes nothing.
pub proof fn lemma_move_at_edge_stays(state: BoardState, direction: Direction)
    requires
        at_edge(state.pos, direction),
    ensures
        state.moved(direction) == state,
{
}

/// Writing a digit into an editable cell and then clearing it leaves no trace:
/// the board is the one that clearing alone gives, the cell reads as empty, the
/// board is not solved, and a cell that was empty before leaves the whole board
/// as it was.
pub proof fn lemma_write_then_clear(state: BoardState, digit: u8)
    requires
        state.wf(),
        state.current().modifiable,
    ensures
        state.write(digit) matches Ok(written) && written.write(0) == Ok::<BoardState, Error>(
            state.with_number(0),
        ),
        state.with_number(0).number() is None,
        !state.with_number(0).solved(),
        state.current().number == 0 ==> state.with_number(0) == state,
{
    let written = state.with_number(digit);
    let cleared = state.with_number(0);
    assert(written.with_number(0).slots =~~= cleared.slots);
    lemma_blank_cell_not_solved(cleared.slots, state.pos.row as int, state.pos.column as int);
    if state.current().number == 0 {
        assert(cleared.slots =~~= state.slots);
    }
}

/// The empty board is not solved.
pub proof fn lemma_empty_board_not_solved()
    ensures
        !BoardState::empty().solved(),
{
    lemma_blank_cell_not_solved(BoardState::empty().slots, 0, 0);
}

/// A Sudoku board: 81 cells and the cursor. The cursor never leaves the grid,
/// every number is a digit or 0, and the cells filled in by the puzzle are never
/// empty.
pub struct Board {
    slots: [[Slot; 9]; 9],
    current_pos: Position,
}

impl View for Board {
    type V = BoardState;

    closed spec fn view(&self) -> BoardState {
        BoardState { slots: grid_view(self.slots), pos: self.current_pos }
    }
}

impl Board {
    /// What holds of every board at all times: its state is well formed.
    #[verifier::type_invariant]
    pub open spec fn inv(&self) -> bool {
        self@.wf()
    }

    /// A board with every cell empty and editable.
    pub fn generate_empty() -> (board: Board)
        ensures
            board@ == BoardState::empty(),
            board@.wf(),
    {
        let board = Board {
            slots: [[Slot { number: 0, modifiable: true }; 9]; 9],
            current_pos: Position { column: 0, row: 0 },
        };
        assert(board@.slots =~~= BoardState::empty().slots);
        board
    }

    /// A board set up from a puzzle: each digit of `seed` is filled in and
    /// fixed, each 0 leaves an empty, editable cell.
    pub fn generate_from(seed: &[[u8; 9]; 9]) -> (board: Board)
        requires
            is_seed(*seed),
        ensures
            board@ == BoardState::seeded(*seed),
            board@.wf(),
    {
        let mut slots = [[Slot { number: 0, modifiable: true }; 9]; 9];
        let mut row: usize = 0;
        while row < 9
            invariant
                row <= 9,
                is_seed(*seed),
                forall|r: int, c: int|
                    0 <= r < 9 && 0 <= c < 9 ==> #[trigger] slots[r][c] == if r < row {
                        Slot::seeded(seed[r][c])
                    } else {
                        Slot::blank()
                    },
            decreases 9 - row,
        {
            let mut column: usize = 0;
            while column < 9
                invariant
                    row < 9,
                    column <= 9,
                    is_seed(*seed),
                    forall|r: int, c: int|
                        0 <= r < 9 && 0 <= c < 9 ==> #[trigger] slots[r][c] == if r < row || (r == row && c
                            < column) {
                            Slot::seeded(seed[r][c])
                        } else {
                            Slot::blank()
                        },
                decreases 9 - column,
            {
                let number = seed[row][column];
                if number != 0 {
                    slots[row][column] = Slot { number, modifiable: false };
                }
                column += 1;
            }
            row += 1;
        }
        let board = Board { slots, current_pos: Position { column: 0, row: 0 } };
        assert(board@.slots =~~= BoardState::seeded(*seed).slots);
        board
    }

    /// The board every game starts from, set up from `PUZZLE`.
    pub fn generate() -> (board: Board)
        ensures
            board@ == BoardState::seeded(PUZZLE),
            board@.wf(),
    {
        let seed = PUZZLE;
        Board::generate_from(&seed)
    }

    /// Where the cursor is.
    pub fn get_pos(&self) -> (pos: &Position)
        ensures
            *pos == self@.pos,
            pos.row < 9,
            pos.column < 9,
    {
        proof {
            use_type_invariant(self);
        }
        &self.current_pos
    }

    /// Puts the cursor on the given cell. A row or column off the grid is
    /// ignored: the cursor stays where it is.
    pub fn set_pos(&mut self, row: usize, column: usize)
        ensures
            final(self)@ == old(self)@.at(row, column),
            final(self)@.wf(),
    {
        proof {
            use_type_invariant(&*self);
        }
        if row >= 9 || column >= 9 {
            return ;
        }
        self.current_pos.row = row;
        self.current_pos.column = column;
    }

    /// Moves the cursor one column to the left, unless it is in the leftmost
    /// column already.
    pub fn move_left(&mut self)
        ensures
            final(self)@ == old(self)@.moved(Direction::Left),
            final(self)@.wf(),
    {
        proof {
            use_type_invariant(&*self);
        }
        if self.current_pos.column <= 0 {
            return ;
        }
        self.current_pos.column -= 1;
    }

    /// Moves the cursor one column to the right, unless it is in the rightmost
    /// column already.
    pub fn move_right(&mut self)
        ensures
            final(self)@ == old(self)@.moved(Direction::Right),
            final(self)@.wf(),
    {
        proof {
            use_type_invariant(&*self);
        }
        if self.current_pos.column >= 8 {
            return ;
        }
        self.current_pos.column += 1;
    }

    /// Moves the cursor one row up, unless it is in the top row already.
    pub fn move_up(&mut self)
        ensures
            final(self)@ == old(self)@.moved(Direction::Up),
            final(self)@.wf(),
    {
        proof {
            use_type_invariant(&*self);
        }
        if self.current_pos.row <= 0 {
            return ;
        }
        self.current_pos.row -= 1;
    }

    /// Moves the cursor one row down, unless it is in the bottom row already.
    pub fn move_down(&mut self)
        ensures
            final(self)@ == old(self)@.moved(Direction::Down),
            final(self)@.wf(),
    {
        proof {
            use_type_invariant(&*self);
        }
        if self.current_pos.row >= 8 {
            return ;
        }
        self.current_pos.row += 1;
    }

    /// Moves the cursor one cell in the given direction, unless it stands at
    /// that edge of the grid already.
    pub fn move_cursor(&mut self, direction: Direction)
        ensures
            final(self)@ == old(self)@.moved(direction),
            final(self)@.wf(),
    {
        match direction {
            Direction::Up => self.move_up(),
            Direction::Down => self.move_down(),
            Direction::Left => self.move_left(),
            Direction::Right => self.move_right(),
        }
    }

    /// Writes `number` into the cell under the cursor; 0 clears the cell. A
    /// cell that the puzzle filled in refuses the write, and the board stays as
    /// it was.
    pub fn set_number(&mut self, number: u8) -> (result: Result<(), Error>)
        requires
            number <= 9,
        ensures
            match old(self)@.write(number) {
                Ok(state) => result is Ok && final(self)@ == state,
                Err(error) => result == Err::<(), Error>(error) && final(self)@ == old(self)@,
            },
            final(self)@.wf(),
    {
        proof {
            use_type_invariant(&*self);
        }
        if !self.slots[self.current_pos.row][self.current_pos.column].modifiable {
            return Result::Err(Error::SlotCannotModify);
        }
        assert(forall|r: int, c: int|
            0 <= r < 9 && 0 <= c < 9 ==> (#[trigger] self.slots[r][c]) == self@.slots[r][c]);
        self.slots[self.current_pos.row][self.current_pos.column].number = number;
        assert(self@.slots =~~= old(self)@.with_number(number).slots);
        return Result::Ok(());
    }

    /// The number in the cell under the cursor, or `None` where it is empty.
    pub fn get_number(&self) -> (number: Option<u8>)
        ensures
            number == self@.number(),
    {
        proof {
            use_type_invariant(self);
        }
        let number = self.slots[self.current_pos.row][self.current_pos.column].number;
        if number == 0 {
            return Option::None;
        }
        return Option::Some(number);
    }

    /// The whole grid, row by row.
    pub fn get_slots(&self) -> (slots: &[[Slot; 9]; 9])
        ensures
            grid_view(*slots) == self@.slots,
            self@.wf(),
    {
        proof {
            use_type_invariant(self);
        }
        &self.slots
    }

    /// Whether the board is a completed, valid solution.
    pub fn check_success(&self) -> (done: bool)
        ensures
            done == self@.solved(),
    {
        is_solved(&self.slots)
    }
}

} // verus!
