//! Core of a two-player Tic Tac Toe game on a 3x3 grid: the board state,
//! the turn-taking rules, and win/draw detection. A presentation layer owns
//! a `TicTacToe` value and forwards cell clicks to `place` and the reset
//! button to `reset`; everything it needs to display is readable from the
//! public fields.

use vstd::prelude::*;

verus! {

/// One cell of the board: empty, or holding one of the two players' marks.
/// The same type names the player to move (`MarkA` moves first).
#[derive(Clone, Copy, PartialEq, Eq, Structural, Debug)]
pub enum Cell {
    Empty,
    MarkA,
    MarkB,
}

impl Cell {
    /// A real player's mark, as opposed to an empty cell.
    pub open spec fn is_mark(self) -> bool {
        self is MarkA || self is MarkB
    }

    /// The opponent of a player's mark.
    pub open spec fn other(self) -> Cell {
        if self is MarkA {
            Cell::MarkB
        } else {
            Cell::MarkA
        }
    }
}

/// Position of `(row, col)` in the row-major board sequence.
pub open spec fn idx(row: int, col: int) -> int {
    row * 3 + col
}

/// The three cells `i`, `j`, `k` of `b` all hold the mark `m`.
pub open spec fn line_of(b: Seq<Cell>, m: Cell, i: int, j: int, k: int) -> bool {
    m.is_mark() && b[i] == m && b[j] == m && b[k] == m
}

/// The mark `m` has completed one of the 8 lines of the board:
/// 3 rows, 3 columns, 2 diagonals.
pub open spec fn wins(b: Seq<Cell>, m: Cell) -> bool {
    ||| line_of(b, m, 0, 1, 2)
    ||| line_of(b, m, 3, 4, 5)
    ||| line_of(b, m, 6, 7, 8)
    ||| line_of(b, m, 0, 3, 6)
    ||| line_of(b, m, 1, 4, 7)
    ||| line_of(b, m, 2, 5, 8)
    ||| line_of(b, m, 0, 4, 8)
    ||| line_of(b, m, 2, 4, 6)
}

/// Some player has completed a line.
pub open spec fn has_winner(b: Seq<Cell>) -> bool {
    wins(b, Cell::MarkA) || wins(b, Cell::MarkB)
}

/// Every cell of the board is occupied.
pub open spec fn board_full(b: Seq<Cell>) -> bool {
    forall|i: int| 0 <= i < 9 ==> b[i] != Cell::Empty
}

/// 1 when the cell holds the mark `m`, else 0.
pub open spec fn one_if(c: Cell, m: Cell) -> int {
    if c == m {
        1
    } else {
        0
    }
}

/// How many of the 9 cells hold the mark `m`.
pub open spec fn mark_count(b: Seq<Cell>, m: Cell) -> int {
    one_if(b[0], m) + one_if(b[1], m) + one_if(b[2], m) + one_if(b[3], m) + one_if(b[4], m)
        + one_if(b[5], m) + one_if(b[6], m) + one_if(b[7], m) + one_if(b[8], m)
}

/// The whole game state: the 3x3 board (stored row-major, 9 cells), whose
/// turn it is, and whether and how the game has ended.
#[derive(Clone, Debug, PartialEq)]
pub struct TicTacToe {
    pub board: Vec<Cell>,
    pub current_player: Cell,
    pub game_over: bool,
    pub winner: Option<Cell>,
}

impl TicTacToe {
    /// Well-formed state: exactly 9 cells, the player to move is a real
    /// mark, and any recorded winner is a real mark.
    pub open spec fn wf(self) -> bool {
        &&& self.board@.len() == 9
        &&& self.current_player.is_mark()
        &&& (self.winner matches Some(w) ==> w.is_mark())
    }

    /// The canonical starting state: all cells empty, `MarkA` to move,
    /// game not over, no winner.
    pub open spec fn initial(self) -> bool {
        &&& self.board@.len() == 9
        &&& (forall|i: int| 0 <= i < 9 ==> self.board@[i] == Cell::Empty)
        &&& self.current_player == Cell::MarkA
        &&& !self.game_over
        &&& self.winner is None
    }

    /// Turn bookkeeping is intact. `MarkA` moves first, so while the game
    /// runs the counts are equal when `MarkA` is to move and `MarkA` is one
    /// ahead when `MarkB` is to move; when the game is over,
    /// `current_player` is frozen at whoever moved last.
    pub open spec fn balanced(self) -> bool {
        if self.current_player is MarkA == self.game_over {
            mark_count(self.board@, Cell::MarkA) == mark_count(self.board@, Cell::MarkB) + 1
        } else {
            mark_count(self.board@, Cell::MarkA) == mark_count(self.board@, Cell::MarkB)
        }
    }

    /// A click at `(row, col)` places a mark only when the coordinates are
    /// in range, the target cell is empty, and the game is still running.
    pub open spec fn place_allowed(self, row: int, col: int) -> bool {
        &&& 0 <= row < 3
        &&& 0 <= col < 3
        &&& !self.game_over
        &&& self.board@[idx(row, col)] == Cell::Empty
    }

    /// The board after the current player's mark lands on `(row, col)`.
    pub open spec fn placed_board(self, row: int, col: int) -> Seq<Cell> {
        self.board@.update(idx(row, col), self.current_player)
    }
}

impl Default for TicTacToe {
    /// The starting state: an empty board with `MarkA` to move.
    fn default() -> (s: Self)
        ensures
            s.wf(),
            s.initial(),
            s.balanced(),
    {
        let mut board: Vec<Cell> = Vec::new();
        let mut i: usize = 0;
        while i < 9
            invariant
                i <= 9,
                board@.len() == i as int,
                forall|j: int| 0 <= j < i as int ==> board@[j] == Cell::Empty,
            decreases 9 - i,
        {
            board.push(Cell::Empty);
            i = i + 1;
        }
        TicTacToe { board, current_player: Cell::MarkA, game_over: false, winner: None }
    }
}

impl TicTacToe {
    /// Returns the mark occupying a completed line, if any line is
    /// complete; `None` exactly when neither player has a line. When only
    /// one player has a line — the only situation reachable by play — the
    /// result is that player's mark.
    pub fn check_win(&self) -> (r: Option<Cell>)
        requires
            self.wf(),
        ensures
            r matches Some(m) ==> wins(self.board@, m),
            r is None <==> !has_winner(self.board@),
            wins(self.board@, Cell::MarkA) && !wins(self.board@, Cell::MarkB) ==> r == Some(
                Cell::MarkA,
            ),
            wins(self.board@, Cell::MarkB) && !wins(self.board@, Cell::MarkA) ==> r == Some(
                Cell::MarkB,
            ),
    {
        let b = &self.board;
        if b[0] != Cell::Empty && b[0] == b[1] && b[0] == b[2] {
            return Some(b[0]);
        }
        if b[3] != Cell::Empty && b[3] == b[4] && b[3] == b[5] {
            return Some(b[3]);
        }
        if b[6] != Cell::Empty && b[6] == b[7] && b[6] == b[8] {
            return Some(b[6]);
        }
        if b[0] != Cell::Empty && b[0] == b[3] && b[0] == b[6] {
            return Some(b[0]);
        }
        if b[1] != Cell::Empty && b[1] == b[4] && b[1] == b[7] {
            return Some(b[1]);
        }
        if b[2] != Cell::Empty && b[2] == b[5] && b[2] == b[8] {
            return Some(b[2]);
        }
        if b[0] != Cell::Empty && b[0] == b[4] && b[0] == b[8] {
            return Some(b[0]);
        }
        if b[2] != Cell::Empty && b[2] == b[4] && b[2] == b[6] {
            return Some(b[2]);
        }
        None
    }

    /// True exactly when every cell of the board is occupied.
    pub fn check_draw(&self) -> (r: bool)
        requires
            self.wf(),
        ensures
            r == board_full(self.board@),
    {
        let mut i: usize = 0;
        while i < 9
            invariant
                self.wf(),
                i <= 9,
                forall|j: int| 0 <= j < i as int ==> self.board@[j] != Cell::Empty,
            decreases 9 - i,
        {
            if self.board[i] == Cell::Empty {
                return false;
            }
            i = i + 1;
        }
        true
    }

    /// Handles a click on `(row, col)`. When the click is allowed — in
    /// range, on an empty cell, game still running — the current player's
    /// mark lands there and the game ends on a completed line (recording
    /// the winner) or on a full board (a draw), else the turn passes to the
    /// other player. Every other click is a silent no-op, by design: an
    /// occupied cell, a finished game, or out-of-range coordinates leave
    /// the state exactly as it was.
    #[verifier::rlimit(50)]
    pub fn place(&mut self, row: usize, col: usize)
        requires
            old(self).wf(),
        ensures
            final(self).wf(),
            !old(self).place_allowed(row as int, col as int) ==> *final(self) == *old(self),
            old(self).place_allowed(row as int, col as int) ==> {
                let nb = old(self).placed_board(row as int, col as int);
                let over = has_winner(nb) || board_full(nb);
                &&& final(self).board@ == nb
                &&& final(self).game_over == over
                &&& final(self).current_player == if over {
                    old(self).current_player
                } else {
                    old(self).current_player.other()
                }
                &&& (has_winner(nb) ==> (final(self).winner matches Some(m) && wins(nb, m)))
                &&& (wins(nb, old(self).current_player) && !wins(
                    nb,
                    old(self).current_player.other(),
                ) ==> final(self).winner == Some(old(self).current_player))
                &&& (!has_winner(nb) ==> final(self).winner == old(self).winner)
            },
            old(self).balanced() ==> final(self).balanced(),
            forall|i: int|
                0 <= i < 9 && old(self).board@[i] != Cell::Empty ==> final(self).board@[i] == old(
                    self,
                ).board@[i],
    {
        if row < 3 && col < 3 && !self.game_over {
            let i: usize = row * 3 + col;
            if self.board[i] == Cell::Empty {
                let mover = self.current_player;
                self.board[i] = mover;
                match self.check_win() {
                    Some(w) => {
                        self.game_over = true;
                        self.winner = Some(w);
                    },
                    None => {
                        if self.check_draw() {
                            self.game_over = true;
                        } else {
                            self.current_player = match mover {
                                Cell::MarkA => Cell::MarkB,
                                _ => Cell::MarkA,
                            };
                        }
                    },
                }
            }
        }
    }

    /// Returns the game to its starting state, exactly as freshly
    /// constructed.
    pub fn reset(&mut self)
        ensures
            final(self).wf(),
            final(self).initial(),
            final(self).balanced(),
    {
        *self = TicTacToe::default();
    }
}

/// Law: as long as the turn bookkeeping is intact — `default` and `reset`
/// establish `balanced` and `place` preserves it, so it holds in every
/// state reachable by any sequence of moves — the two players' mark counts
/// never differ by more than one.
pub proof fn lemma_mark_counts_within_one(s: TicTacToe)
    requires
        s.balanced(),
    ensures
        mark_count(s.board@, Cell::MarkA) <= mark_count(s.board@, Cell::MarkB) + 1,
        mark_count(s.board@, Cell::MarkB) <= mark_count(s.board@, Cell::MarkA) + 1,
{
}

} // verus!
