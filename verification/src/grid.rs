//! The cells of a Sudoku grid and the check that a grid is a completed solution.

use vstd::prelude::*;

verus! {

/// One cell of the grid. `number` is a digit from 1 to 9, or 0 for an empty
/// cell. A cell that is not `modifiable` was filled in by the puzzle and keeps
/// its number for good.
#[derive(Clone, Copy, Debug)]
pub struct Slot {
    pub number: u8,
    pub modifiable: bool,
}

impl Slot {
    /// The number is a digit or 0, and a fixed cell is never empty.
    pub open spec fn wf(self) -> bool {
        &&& self.number <= 9
        &&& !self.modifiable ==> self.number != 0
    }

    /// The empty, editable cell.
    pub open spec fn blank() -> Slot {
        Slot { number: 0, modifiable: true }
    }

    /// The cell a puzzle digit turns into: 0 leaves the cell empty and editable,
    /// any other digit fills it in and fixes it.
    pub open spec fn seeded(digit: u8) -> Slot {
        if digit == 0 {
            Slot::blank()
        } else {
            Slot { number: digit, modifiable: false }
        }
    }
}

impl Default for Slot {
    fn default() -> (slot: Slot)
        ensures
            slot == Slot::blank(),
    {
        Slot { number: 0, modifiable: true }
    }
}

/// The grid as nine rows of nine cells.
pub open spec fn grid_view(slots: [[Slot; 9]; 9]) -> Seq<Seq<Slot>> {
    Seq::new(9, |r: int| Seq::new(9, |c: int| slots[r][c]))
}

/// Nine rows of nine cells each.
pub open spec fn is_grid(grid: Seq<Seq<Slot>>) -> bool {
    &&& grid.len() == 9
    &&& forall|r: int| 0 <= r < 9 ==> (#[trigger] grid[r]).len() == 9
}

/// The digits every row, column and box of a solution holds: 1 to 9.
pub open spec fn digits() -> Set<u8> {
    Set::new(|d: u8| 1 <= d <= 9)
}

/// The numbers found in the cells of rows `top..bottom` and columns
/// `left..right`.
pub open spec fn numbers_in(grid: Seq<Seq<Slot>>, top: int, bottom: int, left: int, right: int) -> Set<u8> {
    Set::new(
        |d: u8|
            exists|r: int, c: int|
                #![trigger grid[r][c]]
                top <= r < bottom && left <= c < right && grid[r][c].number == d,
    )
}

/// The numbers in one row of the grid.
pub open spec fn row_numbers(grid: Seq<Seq<Slot>>, row: int) -> Set<u8> {
    numbers_in(grid, row, row + 1, 0, 9)
}

/// The numbers in one column of the grid.
pub open spec fn column_numbers(grid: Seq<Seq<Slot>>, column: int) -> Set<u8> {
    numbers_in(grid, 0, 9, column, column + 1)
}

/// The numbers in one of the nine 3x3 boxes; `band` and `stack` count the
/// boxes from the top and from the left, each from 0 to 2.
pub open spec fn box_numbers(grid: Seq<Seq<Slot>>, band: int, stack: int) -> Set<u8> {
    numbers_in(grid, 3 * band, 3 * band + 3, 3 * stack, 3 * stack + 3)
}

/// A grid is solved when each row, each column and each box holds exactly the
/// digits 1 to 9.
pub open spec fn solved(grid: Seq<Seq<Slot>>) -> bool {
    &&& forall|row: int| 0 <= row < 9 ==> #[trigger] row_numbers(grid, row) == digits()
    &&& forall|column: int| 0 <= column < 9 ==> #[trigger] column_numbers(grid, column) == digits()
    &&& forall|band: int, stack: int|
        0 <= band < 3 && 0 <= stack < 3 ==> #[trigger] box_numbers(grid, band, stack) == digits()
}

/// A grid with an empty cell is not solved.
pub proof fn lemma_blank_cell_not_solved(grid: Seq<Seq<Slot>>, row: int, column: int)
    requires
        0 <= row < 9,
        0 <= column < 9,
        grid[row][column].number == 0,
    ensures
        !solved(grid),
{
    assert(row_numbers(grid, row).contains(0));
    assert(!digits().contains(0));
}

/// A grid with a row that lacks one of the digits is not solved, whatever its
/// columns and boxes hold.
pub proof fn lemma_row_lacking_digit_not_solved(grid: Seq<Seq<Slot>>, row: int, digit: u8)
    requires
        0 <= row < 9,
        1 <= digit <= 9,
        forall|column: int| 0 <= column < 9 ==> (#[trigger] grid[row][column]).number != digit,
    ensures
        !solved(grid),
{
    assert(digits().contains(digit));
    assert(!row_numbers(grid, row).contains(digit));
}

/// The cells reached when a row by row walk over columns `left..right`, begun
/// in row `top`, stands before column `column` of row `row`.
spec fn walked(top: int, left: int, right: int, row: int, column: int, r: int, c: int) -> bool {
    ||| top <= r < row && left <= c < right
    ||| r == row && left <= c < column
}

/// Whether the cells of rows `top..bottom` and columns `left..right` hold
/// exactly the digits 1 to 9.
fn region_complete(slots: &[[Slot; 9]; 9], top: usize, bottom: usize, left: usize, right: usize) -> (complete: bool)
    requires
        top <= bottom <= 9,
        left <= right <= 9,
    ensures
        complete == (numbers_in(grid_view(*slots), top as int, bottom as int, left as int, right as int)
            == digits()),
{
    let ghost grid = grid_view(*slots);
    let ghost found = numbers_in(grid, top as int, bottom as int, left as int, right as int);
    let mut seen: [bool; 10] = [false; 10];
    let ghost mut place: Seq<(int, int)> = Seq::new(10, |d: int| (0int, 0int));
    let mut row: usize = top;
    while row < bottom
        invariant
            top <= row <= bottom <= 9,
            left <= right <= 9,
            grid == grid_view(*slots),
            found == numbers_in(grid, top as int, bottom as int, left as int, right as int),
            place.len() == 10,
            forall|d: int|
                0 <= d < 10 && #[trigger] seen[d] ==> {
                    &&& walked(top as int, left as int, right as int, row as int, left as int, place[d].0, place[d].1)
                    &&& grid[place[d].0][place[d].1].number == d
                },
            forall|r: int, c: int|
                walked(top as int, left as int, right as int, row as int, left as int, r, c) ==> {
                    &&& 1 <= (#[trigger] grid[r][c]).number <= 9
                    &&& seen[grid[r][c].number as int]
                },
        decreases bottom - row,
    {
        let mut column: usize = left;
        while column < right
            invariant
                top <= row < bottom <= 9,
                left <= column <= right <= 9,
                grid == grid_view(*slots),
                found == numbers_in(grid, top as int, bottom as int, left as int, right as int),
                place.len() == 10,
                forall|d: int|
                    0 <= d < 10 && #[trigger] seen[d] ==> {
                        &&& walked(top as int, left as int, right as int, row as int, column as int, place[d].0, place[d].1)
                        &&& grid[place[d].0][place[d].1].number == d
                    },
                forall|r: int, c: int|
                    walked(top as int, left as int, right as int, row as int, column as int, r, c) ==> {
                        &&& 1 <= (#[trigger] grid[r][c]).number <= 9
                        &&& seen[grid[r][c].number as int]
                    },
            decreases right - column,
        {
            let number = slots[row][column].number;
            assert(grid[row as int][column as int].number == number);
            if number == 0 || number > 9 {
                assert(found.contains(number));
                assert(!digits().contains(number));
                return false;
            }
            seen[number as usize] = true;
            proof {
                place = place.update(number as int, (row as int, column as int));
            }
            column += 1;
        }
        row += 1;
    }
    let mut digit: usize = 1;
    while digit <= 9
        invariant
            1 <= digit <= 10,
            grid == grid_view(*slots),
            forall|d: int| 1 <= d < digit ==> #[trigger] seen[d],
            forall|d: int|
                0 <= d < 10 && #[trigger] seen[d] ==> {
                    &&& walked(top as int, left as int, right as int, bottom as int, left as int, place[d].0, place[d].1)
                    &&& grid[place[d].0][place[d].1].number == d
                },
            forall|r: int, c: int|
                walked(top as int, left as int, right as int, bottom as int, left as int, r, c) ==> {
                    &&& 1 <= (#[trigger] grid[r][c]).number <= 9
                    &&& seen[grid[r][c].number as int]
                },
            place.len() == 10,
            found == numbers_in(grid, top as int, bottom as int, left as int, right as int),
        decreases 10 - digit,
    {
        if !seen[digit] {
            assert(digits().contains(digit as u8));
            assert(!found.contains(digit as u8));
            return false;
        }
        digit += 1;
    }
    assert forall|d: u8| found.contains(d) == digits().contains(d) by {
        if digits().contains(d) {
            assert(seen[d as int]);
            let (r, c) = place[d as int];
            assert(grid[r][c].number == d);
        }
    }
    assert(found =~= digits());
    true
}

/// Whether the grid is a completed, valid solution: every row, every column and
/// every 3x3 box holds each of the digits 1 to 9. A grid with an empty cell is
/// never solved. The whole grid is scanned on every call.
pub fn is_solved(slots: &[[Slot; 9]; 9]) -> (done: bool)
    ensures
        done == solved(grid_view(*slots)),
{
    let ghost grid = grid_view(*slots);
    let mut row: usize = 0;
    while row < 9
        invariant
            row <= 9,
            grid == grid_view(*slots),
            forall|r: int| 0 <= r < row ==> #[trigger] row_numbers(grid, r) == digits(),
        decreases 9 - row,
    {
        if !region_complete(slots, row, row + 1, 0, 9) {
            assert(row_numbers(grid, row as int) != digits());
            return false;
        }
        row += 1;
    }
    let mut column: usize = 0;
    while column < 9
        invariant
            column <= 9,
            grid == grid_view(*slots),
            forall|r: int| 0 <= r < 9 ==> #[trigger] row_numbers(grid, r) == digits(),
            forall|c: int| 0 <= c < column ==> #[trigger] column_numbers(grid, c) == digits(),
        decreases 9 - column,
    {
        if !region_complete(slots, 0, 9, column, column + 1) {
            assert(column_numbers(grid, column as int) != digits());
            return false;
        }
        column += 1;
    }
    let mut band: usize = 0;
    while band < 3
        invariant
            band <= 3,
            grid == grid_view(*slots),
            forall|r: int| 0 <= r < 9 ==> #[trigger] row_numbers(grid, r) == digits(),
            forall|c: int| 0 <= c < 9 ==> #[trigger] column_numbers(grid, c) == digits(),
            forall|b: int, s: int|
                0 <= b < band && 0 <= s < 3 ==> #[trigger] box_numbers(grid, b, s) == digits(),
        decreases 3 - band,
    {
        let mut stack: usize = 0;
        while stack < 3
            invariant
                band < 3,
                stack <= 3,
                grid == grid_view(*slots),
                forall|b: int, s: int|
                    0 <= b < band && 0 <= s < 3 ==> #[trigger] box_numbers(grid, b, s) == digits(),
                forall|s: int| 0 <= s < stack ==> #[trigger] box_numbers(grid, band as int, s) == digits(),
            decreases 3 - stack,
        {
            if !region_complete(slots, 3 * band, 3 * band + 3, 3 * stack, 3 * stack + 3) {
                assert(box_numbers(grid, band as int, stack as int) != digits());
                return false;
            }
            stack += 1;
        }
        band += 1;
    }
    true
}

} // verus!
