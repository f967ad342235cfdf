use vstd::prelude::*;

use crate::identity::Identity;

verus! {

/// The stage a match is in.
#[derive(Clone, Copy, Debug, PartialEq, Eq, Structural)]
pub enum GameState {
    Waiting,
    XMove,
    OMove,
    XWon,
    OWon,
    Draw,
}

impl Default for GameState {
    fn default() -> (r: GameState)
        ensures
            r == GameState::Waiting,
    {
        GameState::Waiting
    }
}

/// What a board cell holds.
#[derive(Clone, Copy, Debug, PartialEq, Eq, Structural)]
pub enum Cell {
    Empty,
    X,
    O,
}

/// The mathematical model of a match.
pub struct MatchModel {
    pub phase: GameState,
    pub player_x: Seq<u8>,
    pub player_o: Seq<u8>,
    pub board: Seq<Cell>,
    pub last_active_x: u64,
    pub last_active_o: u64,
}

/// A match has ended: its board is frozen from then on.
pub open spec fn is_terminal(p: GameState) -> bool {
    p == GameState::XWon || p == GameState::OWon || p == GameState::Draw
}

/// One of the two sides is to move.
pub open spec fn is_turn(p: GameState) -> bool {
    p == GameState::XMove || p == GameState::OMove
}

/// The mark placed by the side to move.
pub open spec fn mark_of(p: GameState) -> Cell {
    if p == GameState::XMove {
        Cell::X
    } else {
        Cell::O
    }
}

/// The phase in which the side that plays `m` has won.
pub open spec fn won_by(m: Cell) -> GameState {
    if m == Cell::X {
        GameState::XWon
    } else {
        GameState::OWon
    }
}

/// The turn of the side that did not play `m`.
pub open spec fn turn_after(m: Cell) -> GameState {
    if m == Cell::X {
        GameState::OMove
    } else {
        GameState::XMove
    }
}

/// The index of the cell at column `x` and row `y`, as an unbounded integer.
pub open spec fn cell_index(x: int, y: int) -> int {
    y * 3 + x
}

/// The three cells `a`, `b`, `c` all hold `m`.
pub open spec fn three(board: Seq<Cell>, m: Cell, a: int, b: int, c: int) -> bool {
    board[a] == m && board[b] == m && board[c] == m
}

/// Some row, column or diagonal holds `m` three times.
pub open spec fn has_line(board: Seq<Cell>, m: Cell) -> bool {
    three(board, m, 0, 1, 2) || three(board, m, 3, 4, 5) || three(board, m, 6, 7, 8)
        || three(board, m, 0, 3, 6) || three(board, m, 1, 4, 7) || three(board, m, 2, 5, 8)
        || three(board, m, 0, 4, 8) || three(board, m, 2, 4, 6)
}

/// Every cell holds a mark.
pub open spec fn is_full(board: Seq<Cell>) -> bool {
    forall|i: int| 0 <= i < board.len() ==> board[i] != Cell::Empty
}

/// The phase after `m` was placed, leaving `board`.
pub open spec fn phase_after(board: Seq<Cell>, m: Cell) -> GameState {
    if has_line(board, m) {
        won_by(m)
    } else if is_full(board) {
        GameState::Draw
    } else {
        turn_after(m)
    }
}

/// How many cells of `board` hold `m`.
pub open spec fn count(board: Seq<Cell>, m: Cell) -> nat
    decreases board.len(),
{
    if board.len() == 0 {
        0
    } else {
        count(board.drop_last(), m) + if board.last() == m {
            1nat
        } else {
            0nat
        }
    }
}

/// Writing `m` over an empty cell adds one to its count and leaves the others.
pub proof fn lemma_count_update(board: Seq<Cell>, i: int, m: Cell, k: Cell)
    requires
        0 <= i < board.len(),
        board[i] == Cell::Empty,
        m != Cell::Empty,
    ensures
        count(board.update(i, m), k) == count(board, k) + if k == m {
            1int
        } else if k == Cell::Empty {
            -1int
        } else {
            0int
        },
    decreases board.len(),
{
    let u = board.update(i, m);
    if i == board.len() - 1 {
        assert(u.drop_last() =~= board.drop_last());
    } else {
        assert(u.drop_last() =~= board.drop_last().update(i, m));
        lemma_count_update(board.drop_last(), i, m, k);
    }
}

impl MatchModel {
    /// The number of X marks less the number of O marks.
    pub open spec fn lead(self) -> int {
        count(self.board, Cell::X) - count(self.board, Cell::O)
    }

    /// The invariant of every match: nine cells, X moves first and marks
    /// alternate, a waiting match has an empty board.
    pub open spec fn wf(self) -> bool {
        &&& self.board.len() == 9
        &&& (self.phase == GameState::Waiting ==> forall|i: int|
            0 <= i < 9 ==> self.board[i] == Cell::Empty)
        &&& (self.phase == GameState::XMove ==> self.lead() == 0)
        &&& (self.phase == GameState::OMove ==> self.lead() == 1)
        &&& (0 <= self.lead() <= 1)
    }

    /// The identity expected to move now.
    pub open spec fn mover(self) -> Seq<u8> {
        if self.phase == GameState::XMove {
            self.player_x
        } else {
            self.player_o
        }
    }

    /// A move by `player` at column `x`, row `y` is accepted.
    pub open spec fn accepts_move(self, player: Seq<u8>, x: int, y: int) -> bool {
        &&& 0 <= cell_index(x, y) < 9
        &&& self.board[cell_index(x, y)] == Cell::Empty
        &&& is_turn(self.phase)
        &&& player == self.mover()
    }

    /// The match after an accepted move at cell `idx`.
    pub open spec fn after_move(self, idx: int) -> MatchModel {
        let m = mark_of(self.phase);
        let b = self.board.update(idx, m);
        MatchModel { phase: phase_after(b, m), board: b, ..self }
    }
}

/// An accepted move keeps the match well formed.
pub proof fn lemma_after_move_wf(m: MatchModel, idx: int)
    requires
        m.wf(),
        0 <= idx < 9,
        m.board[idx] == Cell::Empty,
        is_turn(m.phase),
    ensures
        m.after_move(idx).wf(),
{
    let mark = mark_of(m.phase);
    lemma_count_update(m.board, idx, mark, Cell::X);
    lemma_count_update(m.board, idx, mark, Cell::O);
}

} // verus!
