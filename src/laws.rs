use vstd::prelude::*;

use crate::model::{
    has_line, is_full, is_turn, lemma_after_move_wf, mark_of, won_by, Cell, GameState,
    MatchModel,
};

verus! {

/// Every phase is exactly one of the six stages of a match.
pub proof fn lemma_phase_is_one_of_six(p: GameState)
    ensures
        (p == GameState::Waiting) as int + (p == GameState::XMove) as int + (p
            == GameState::OMove) as int + (p == GameState::XWon) as int + (p
            == GameState::OWon) as int + (p == GameState::Draw) as int == 1,
{
}

/// Each of `cells` in turn is a move that the match accepts from the side to
/// move.
pub open spec fn all_accepted(m: MatchModel, cells: Seq<int>) -> bool
    decreases cells.len(),
{
    if cells.len() == 0 {
        true
    } else {
        &&& 0 <= cells[0] < 9
        &&& m.board[cells[0]] == Cell::Empty
        &&& is_turn(m.phase)
        &&& all_accepted(m.after_move(cells[0]), cells.drop_first())
    }
}

/// The match after the moves at `cells`, one after another.
pub open spec fn play(m: MatchModel, cells: Seq<int>) -> MatchModel
    decreases cells.len(),
{
    if cells.len() == 0 {
        m
    } else {
        play(m.after_move(cells[0]), cells.drop_first())
    }
}

/// After any sequence of accepted moves the match is well formed, so the
/// number of X marks less the number of O marks is 0 or 1.
pub proof fn lemma_moves_keep_mark_balance(m: MatchModel, cells: Seq<int>)
    requires
        m.wf(),
        all_accepted(m, cells),
    ensures
        play(m, cells).wf(),
        0 <= play(m, cells).lead() <= 1,
    decreases cells.len(),
{
    if cells.len() > 0 {
        lemma_after_move_wf(m, cells[0]);
        lemma_moves_keep_mark_balance(m.after_move(cells[0]), cells.drop_first());
    }
}

/// A move that completes a line of the mover's mark wins for the mover, and
/// the won match accepts no further move.
pub proof fn lemma_winning_move_ends_match(m: MatchModel, idx: int)
    requires
        m.wf(),
        0 <= idx < 9,
        m.board[idx] == Cell::Empty,
        is_turn(m.phase),
        has_line(m.after_move(idx).board, mark_of(m.phase)),
    ensures
        m.after_move(idx).phase == won_by(mark_of(m.phase)),
        forall|player: Seq<u8>, x: int, y: int| !m.after_move(idx).accepts_move(player, x, y),
{
}

/// A move that fills the last cell without completing a line of the mover's
/// mark ends the match in a draw.
pub proof fn lemma_filling_move_draws(m: MatchModel, idx: int)
    requires
        m.wf(),
        0 <= idx < 9,
        m.board[idx] == Cell::Empty,
        is_turn(m.phase),
        is_full(m.after_move(idx).board),
        !has_line(m.after_move(idx).board, mark_of(m.phase)),
    ensures
        m.after_move(idx).phase == GameState::Draw,
{
}

/// An accepted move changes only the addressed cell, and a marked cell keeps
/// its mark; the players and the liveness timestamps stay as they were.
pub proof fn lemma_move_keeps_marks(m: MatchModel, idx: int)
    requires
        m.wf(),
        0 <= idx < 9,
        m.board[idx] == Cell::Empty,
        is_turn(m.phase),
    ensures
        m.after_move(idx).board.len() == 9,
        forall|i: int| 0 <= i < 9 && i != idx ==> m.after_move(idx).board[i] == m.board[i],
        forall|i: int|
            0 <= i < 9 && m.board[i] != Cell::Empty ==> m.after_move(idx).board[i] == m.board[i],
        m.after_move(idx).board[idx] == mark_of(m.phase),
        m.after_move(idx).player_x == m.player_x,
        m.after_move(idx).player_o == m.player_o,
        m.after_move(idx).last_active_x == m.last_active_x,
        m.after_move(idx).last_active_o == m.last_active_o,
{
}

} // verus!
