use vstd::prelude::*;

use crate::error::ProgramError;
use crate::identity::Identity;
use crate::model::{
    cell_index, count, is_full, is_terminal, is_turn, lemma_after_move_wf, Cell, GameState,
    MatchModel,
};

verus! {

/// One match: two players, nine cells, the phase and a liveness timestamp
/// for each side.
#[derive(Debug)]
pub struct Game {
    keep_alive: [u64; 2],
    /// The phase; verified callers read it through `state`.
    pub game_state: GameState,
    player_x: Identity,
    player_o: Identity,
    board: [Cell; 9],
}

impl View for Game {
    type V = MatchModel;

    closed spec fn view(&self) -> MatchModel {
        MatchModel {
            phase: self.game_state,
            player_x: self.player_x@,
            player_o: self.player_o@,
            board: self.board@,
            last_active_x: self.keep_alive@[0],
            last_active_o: self.keep_alive@[1],
        }
    }
}

impl Game {
    /// A new match opened by `player_x`: nobody has joined, the board is
    /// empty and both liveness timestamps are zero.
    pub fn create(player_x: &Identity) -> (r: Game)
        ensures
            r@.wf(),
            r@.phase == GameState::Waiting,
            r@.player_x == player_x@,
            r@.player_o == Seq::new(32, |i: int| 0u8),
            r@.board == Seq::new(9, |i: int| Cell::Empty),
            r@.last_active_x == 0,
            r@.last_active_o == 0,
    {
        let r = Game {
            keep_alive: [0u64; 2],
            game_state: GameState::Waiting,
            player_x: *player_x,
            player_o: Identity::zero(),
            board: [Cell::Empty; 9],
        };
        assert(r@.board =~= Seq::new(9, |i: int| Cell::Empty));
        assert(count(r@.board, Cell::X) == 0) by {
            lemma_count_none(r@.board, Cell::X);
        }
        assert(count(r@.board, Cell::O) == 0) by {
            lemma_count_none(r@.board, Cell::O);
        }
        r
    }

    /// A match opened by `player_x` and joined by `player_o` at time 1.
    pub fn new(player_x: Identity, player_o: Identity) -> (r: Game)
        ensures
            r@.wf(),
            r@.phase == GameState::XMove,
            r@.player_x == player_x@,
            r@.player_o == player_o@,
            r@.board == Seq::new(9, |i: int| Cell::Empty),
            r@.last_active_x == 0,
            r@.last_active_o == 1,
    {
        let mut game = Game::create(&player_x);
        let joined = game.join(player_o, 1);
        assert(joined is Ok);
        game
    }

    /// `player_o` joins a waiting match at time `timestamp`.
    ///
    /// On a match that is not waiting this fails with `GameInProgress` and
    /// changes nothing. On a waiting match `player_o` (who may be `player_x`
    /// again) becomes the second side and X is to move; the side's timestamp
    /// is then recorded if it exceeds the stored one, and otherwise the join
    /// stands but is reported as `InvalidTimestamp`.
    pub fn join(&mut self, player_o: Identity, timestamp: u64) -> (r: Result<(), ProgramError>)
        requires
            old(self)@.wf(),
        ensures
            final(self)@.wf(),
            old(self)@.phase != GameState::Waiting ==> r == Err::<(), ProgramError>(
                ProgramError::GameInProgress,
            ) && final(self)@ == old(self)@,
            old(self)@.phase == GameState::Waiting ==> final(self)@ == (MatchModel {
                phase: GameState::XMove,
                player_o: player_o@,
                last_active_o: if timestamp > old(self)@.last_active_o {
                    timestamp
                } else {
                    old(self)@.last_active_o
                },
                ..old(self)@
            }),
            old(self)@.phase == GameState::Waiting ==> (r is Ok <==> timestamp
                > old(self)@.last_active_o),
            old(self)@.phase == GameState::Waiting && timestamp <= old(self)@.last_active_o ==> r
                == Err::<(), ProgramError>(ProgramError::InvalidTimestamp),
    {
        if self.game_state == GameState::Waiting {
            self.player_o = player_o;
            self.game_state = GameState::XMove;
            proof {
                lemma_count_none(self@.board, Cell::X);
                lemma_count_none(self@.board, Cell::O);
            }
            if timestamp <= self.keep_alive[1] {
                Err(ProgramError::InvalidTimestamp)
            } else {
                self.keep_alive[1] = timestamp;
                Ok(())
            }
        } else {
            Err(ProgramError::GameInProgress)
        }
    }

    /// `player` shows it is still active at time `timestamp`.
    ///
    /// Once the match has ended this does nothing and succeeds. Otherwise
    /// `player` is taken as X if it is `player_x`, else as O if it is
    /// `player_o`, else the call fails with `PlayerNotFound`; that side's
    /// timestamp must strictly grow, else the call fails with
    /// `InvalidTimestamp`. Only an accepted call changes the match, and only
    /// that side's timestamp.
    pub fn keep_alive(&mut self, player: Identity, timestamp: u64) -> (r: Result<(), ProgramError>)
        requires
            old(self)@.wf(),
        ensures
            final(self)@.wf(),
            is_terminal(old(self)@.phase) ==> r is Ok && final(self)@ == old(self)@,
            !is_terminal(old(self)@.phase) && player@ == old(self)@.player_x ==> if timestamp
                <= old(self)@.last_active_x {
                r == Err::<(), ProgramError>(ProgramError::InvalidTimestamp) && final(self)@
                    == old(self)@
            } else {
                r is Ok && final(self)@ == (MatchModel {
                    last_active_x: timestamp,
                    ..old(self)@
                })
            },
            !is_terminal(old(self)@.phase) && player@ != old(self)@.player_x && player@ == old(
                self,
            )@.player_o ==> if timestamp <= old(self)@.last_active_o {
                r == Err::<(), ProgramError>(ProgramError::InvalidTimestamp) && final(self)@
                    == old(self)@
            } else {
                r is Ok && final(self)@ == (MatchModel {
                    last_active_o: timestamp,
                    ..old(self)@
                })
            },
            !is_terminal(old(self)@.phase) && player@ != old(self)@.player_x && player@ != old(
                self,
            )@.player_o ==> r == Err::<(), ProgramError>(ProgramError::PlayerNotFound)
                && final(self)@ == old(self)@,
    {
        match self.game_state {
            GameState::Waiting | GameState::XMove | GameState::OMove => {
                if player == self.player_x {
                    if timestamp <= self.keep_alive[0] {
                        return Err(ProgramError::InvalidTimestamp);
                    }
                    self.keep_alive[0] = timestamp;
                } else if player == self.player_o {
                    if timestamp <= self.keep_alive[1] {
                        return Err(ProgramError::InvalidTimestamp);
                    }
                    self.keep_alive[1] = timestamp;
                } else {
                    return Err(ProgramError::PlayerNotFound);
                }
            },
            GameState::XWon | GameState::OWon | GameState::Draw => {},
        }
        Ok(())
    }

    /// The three cells of `triple` all hold `m`.
    fn same(m: Cell, triple: [Cell; 3]) -> (r: bool)
        ensures
            r == (triple@[0] == m && triple@[1] == m && triple@[2] == m),
    {
        triple[0] == m && triple[1] == m && triple[2] == m
    }

    /// Every cell of `board` holds a mark.
    fn all_taken(board: &[Cell; 9]) -> (r: bool)
        ensures
            r == is_full(board@),
    {
        let mut i: usize = 0;
        while i < 9
            invariant
                0 <= i <= 9,
                board@.len() == 9,
                forall|j: int| 0 <= j < i ==> board@[j] != Cell::Empty,
            decreases 9 - i,
        {
            if board[i] == Cell::Empty {
                return false;
            }
            i = i + 1;
        }
        true
    }

    /// Player `player` marks the cell at column `x`, row `y`.
    ///
    /// The move is refused with `InvalidMove` when the cell is off the board
    /// or taken, then with `NotYourTurn` when no side is to move, then with
    /// `PlayerNotFound` when `player` is not the side to move; a refused move
    /// leaves the match unchanged. An accepted move places the mover's mark;
    /// the mover wins on a full line of that mark, otherwise a full board is a
    /// draw, otherwise the other side is to move.
    pub fn next_move(&mut self, player: Identity, x: usize, y: usize) -> (r: Result<(), ProgramError>)
        requires
            old(self)@.wf(),
        ensures
            final(self)@.wf(),
            r is Ok <==> old(self)@.accepts_move(player@, x as int, y as int),
            r is Ok ==> final(self)@ == old(self)@.after_move(cell_index(x as int, y as int)),
            r is Err ==> final(self)@ == old(self)@,
            !(0 <= cell_index(x as int, y as int) < 9 && old(self)@.board[cell_index(
                x as int,
                y as int,
            )] == Cell::Empty) ==> r == Err::<(), ProgramError>(ProgramError::InvalidMove),
            0 <= cell_index(x as int, y as int) < 9 && old(self)@.board[cell_index(
                x as int,
                y as int,
            )] == Cell::Empty && !is_turn(old(self)@.phase) ==> r == Err::<(), ProgramError>(
                ProgramError::NotYourTurn,
            ),
            0 <= cell_index(x as int, y as int) < 9 && old(self)@.board[cell_index(
                x as int,
                y as int,
            )] == Cell::Empty && is_turn(old(self)@.phase) && player@ != old(self)@.mover()
                ==> r == Err::<(), ProgramError>(ProgramError::PlayerNotFound),
    {
        if y >= 3 || x >= 9 - y * 3 {
            return Err(ProgramError::InvalidMove);
        }
        let idx: usize = y * 3 + x;
        if self.board[idx] != Cell::Empty {
            return Err(ProgramError::InvalidMove);
        }
        let ghost before = self@;
        let (mark, won_state) = match self.game_state {
            GameState::XMove => {
                if !(player == self.player_x) {
                    return Err(ProgramError::PlayerNotFound);
                }
                self.game_state = GameState::OMove;
                (Cell::X, GameState::XWon)
            },
            GameState::OMove => {
                if !(player == self.player_o) {
                    return Err(ProgramError::PlayerNotFound);
                }
                self.game_state = GameState::XMove;
                (Cell::O, GameState::OWon)
            },
            _ => {
                return Err(ProgramError::NotYourTurn);
            },
        };
        self.board[idx] = mark;
        let b = &self.board;
        let winner = Game::same(mark, [b[0], b[1], b[2]]) || Game::same(mark, [b[3], b[4], b[5]])
            || Game::same(mark, [b[6], b[7], b[8]]) || Game::same(mark, [b[0], b[3], b[6]])
            || Game::same(mark, [b[1], b[4], b[7]]) || Game::same(mark, [b[2], b[5], b[8]])
            || Game::same(mark, [b[0], b[4], b[8]]) || Game::same(mark, [b[2], b[4], b[6]]);
        if winner {
            self.game_state = won_state;
        } else if Game::all_taken(&self.board) {
            self.game_state = GameState::Draw;
        }
        proof {
            lemma_after_move_wf(before, idx as int);
            assert(self@ == before.after_move(idx as int));
        }
        Ok(())
    }

    /// The phase the match is in.
    pub fn state(&self) -> (r: GameState)
        ensures
            r == self@.phase,
    {
        self.game_state
    }

    /// The identity that opened the match.
    pub fn player_x(&self) -> (r: Identity)
        ensures
            r@ == self@.player_x,
    {
        self.player_x
    }

    /// The identity that joined the match, all zero until someone joins.
    pub fn player_o(&self) -> (r: Identity)
        ensures
            r@ == self@.player_o,
    {
        self.player_o
    }

    /// The cells, row by row from the top-left.
    pub fn board(&self) -> (r: [Cell; 9])
        ensures
            r@ == self@.board,
    {
        self.board
    }

    /// The latest liveness timestamps of X and of O.
    pub fn last_active(&self) -> (r: (u64, u64))
        ensures
            r.0 == self@.last_active_x,
            r.1 == self@.last_active_o,
    {
        (self.keep_alive[0], self.keep_alive[1])
    }
}

/// A board in which no cell holds `m` counts none of it.
proof fn lemma_count_none(board: Seq<Cell>, m: Cell)
    requires
        forall|i: int| 0 <= i < board.len() ==> board[i] != m,
    ensures
        count(board, m) == 0,
    decreases board.len(),
{
    if board.len() > 0 {
        lemma_count_none(board.drop_last(), m);
    }
}

} // verus!
