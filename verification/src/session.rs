//! A game in progress: the board, whether it has been solved, and what each
//! key press does to both.

use crate::board::{Board, BoardState, Direction};
use vstd::prelude::*;

verus! {

/// A key press, as far as the game tells keys apart.
#[derive(Clone, Copy, Debug)]
pub enum Key {
    /// A key that types a character.
    Character(char),
    /// The delete key.
    Delete,
    Left,
    Right,
    Up,
    Down,
    /// Any other key.
    Other,
}

/// Whether the game still takes input.
#[derive(Clone, Copy, PartialEq, Eq, Debug)]
pub enum Phase {
    /// The board is being filled in.
    Editing,
    /// A write completed the solution; the game is over.
    Solved,
}

/// What a key press asks of the screen.
#[derive(Clone, Copy, PartialEq, Eq, Debug)]
pub enum Action {
    /// The key means nothing to the game, which is as it was.
    Ignore,
    /// The cursor was told to move; it belongs where the board now has it.
    Move,
    /// The cell under the cursor took a number and now shows this character.
    Show(char),
    /// The cell under the cursor is fixed and took nothing.
    Reject,
    /// The cell under the cursor took a number, shows this character, and the
    /// board is solved: the game ends with an announcement.
    Finish(char),
    /// The game ends without an announcement.
    Quit,
}

/// The number a typed character writes: a space clears the cell, the digits
/// `1` to `9` write themselves, no other character writes anything.
pub open spec fn typed_number(c: char) -> Option<u8> {
    if c == ' ' {
        Some(0u8)
    } else if '1' <= c <= '9' {
        Some((c as int - 48) as u8)
    } else {
        None
    }
}

/// What a game is, mathematically: the state of its board and its phase.
pub struct SessionState {
    pub board: BoardState,
    pub phase: Phase,
}

impl SessionState {
    /// The board is well formed, and a game that counts as solved has a solved
    /// board.
    pub open spec fn wf(self) -> bool {
        &&& self.board.wf()
        &&& self.phase is Solved ==> self.board.solved()
    }

    /// The game that starts on the given board.
    pub open spec fn start(board: BoardState) -> SessionState {
        SessionState { board, phase: Phase::Editing }
    }

    /// The game with its cursor moved.
    pub open spec fn moved(self, direction: Direction) -> (SessionState, Action) {
        (SessionState { board: self.board.moved(direction), ..self }, Action::Move)
    }

    /// The game after a character was typed: a character that writes no number
    /// is ignored, a fixed cell rejects the write, and a write that is taken
    /// ends the game if it completes the solution.
    pub open spec fn typed(self, c: char) -> (SessionState, Action) {
        match typed_number(c) {
            None => (self, Action::Ignore),
            Some(number) => match self.board.write(number) {
                Err(_) => (self, Action::Reject),
                Ok(board) => if board.solved() {
                    (SessionState { board, phase: Phase::Solved }, Action::Finish(c))
                } else {
                    (SessionState { board, ..self }, Action::Show(c))
                },
            },
        }
    }

    /// The game after a key press, and what the press asks of the screen. A
    /// solved game takes no more input.
    pub open spec fn step(self, key: Key) -> (SessionState, Action) {
        if self.phase is Solved {
            (self, Action::Ignore)
        } else {
            match key {
                Key::Character(c) => self.typed(c),
                Key::Delete => (self, Action::Quit),
                Key::Left => self.moved(Direction::Left),
                Key::Right => self.moved(Direction::Right),
                Key::Up => self.moved(Direction::Up),
                Key::Down => self.moved(Direction::Down),
                Key::Other => (self, Action::Ignore),
            }
        }
    }
}

/// A solved game stays as it is, whatever key is pressed.
pub proof fn lemma_solved_is_final(state: SessionState, key: Key)
    requires
        state.phase is Solved,
    ensures
        state.step(key) == (state, Action::Ignore),
{
}

/// A key press keeps a well-formed game well formed: the cursor stays on the
/// grid, the cells stay well formed, and a game that counts as solved has a
/// solved board.
pub proof fn lemma_step_keeps_game_well_formed(state: SessionState, key: Key)
    requires
        state.wf(),
    ensures
        state.step(key).0.wf(),
{
}

/// A game becomes solved in one way only: a typed character is written to the
/// board, and the board with it is solved. Every other key press leaves a game
/// that is being edited in that phase.
pub proof fn lemma_only_a_completing_write_solves(state: SessionState, key: Key)
    requires
        state.phase is Editing,
    ensures
        state.step(key).0.phase is Solved <==> state.step(key).1 is Finish,
        state.step(key).0.phase is Solved <==> {
            &&& key matches Key::Character(c)
            &&& typed_number(c) matches Some(number)
            &&& state.board.write(number) matches Ok(board)
            &&& board.solved()
        },
{
}

/// The value of a decimal digit character.
fn char_to_u8(c: char) -> (number: u8)
    requires
        '0' <= c <= '9',
    ensures
        number == c as int - 48,
{
    (c as u32 - 48) as u8
}

/// The number a typed character writes, if it writes one.
pub fn number_typed(c: char) -> (number: Option<u8>)
    ensures
        number == typed_number(c),
{
    if c == ' ' {
        Some(0u8)
    } else if c >= '1' && c <= '9' {
        Some(char_to_u8(c))
    } else {
        None
    }
}

/// A game in progress.
pub struct Session {
    board: Board,
    phase: Phase,
}

impl View for Session {
    type V = SessionState;

    closed spec fn view(&self) -> SessionState {
        SessionState { board: self.board@, phase: self.phase }
    }
}

impl Session {
    /// Starts a game on the given board.
    pub fn new(board: Board) -> (session: Session)
        ensures
            session@ == SessionState::start(board@),
            session@.wf(),
    {
        proof {
            use_type_invariant(&board);
        }
        Session { board, phase: Phase::Editing }
    }

    /// The board of the game.
    pub fn board(&self) -> (board: &Board)
        ensures
            board@ == self@.board,
    {
        &self.board
    }

    /// Whether the game still takes input.
    pub fn phase(&self) -> (phase: Phase)
        ensures
            phase == self@.phase,
    {
        self.phase
    }

    /// Takes a key press: changes the game as the key asks and says what the
    /// screen has to do.
    pub fn handle(&mut self, key: Key) -> (action: Action)
        ensures
            (final(self)@, action) == old(self)@.step(key),
    {
        match self.phase {
            Phase::Solved => {
                return Action::Ignore;
            },
            Phase::Editing => {},
        }
        match key {
            Key::Character(c) => {
                let number = match number_typed(c) {
                    Some(number) => number,
                    None => {
                        return Action::Ignore;
                    },
                };
                match self.board.set_number(number) {
                    Err(_) => Action::Reject,
                    Ok(()) => {
                        if self.board.check_success() {
                            self.phase = Phase::Solved;
                            Action::Finish(c)
                        } else {
                            Action::Show(c)
                        }
                    },
                }
            },
            Key::Delete => Action::Quit,
            Key::Left => {
                self.board.move_left();
                Action::Move
            },
            Key::Right => {
                self.board.move_right();
                Action::Move
            },
            Key::Up => {
                self.board.move_up();
                Action::Move
            },
            Key::Down => {
                self.board.move_down();
                Action::Move
            },
            Key::Other => Action::Ignore,
        }
    }
}

} // verus!
