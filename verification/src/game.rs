//! The game state machine: the current position, the side to move, the
//! matched history and move-log stacks, undo, outcome derivation, and
//! the request for a computer move.

use vstd::prelude::*;
use vstd::string::StringExecFns;

use crate::ai::minimax;
use crate::oracle::{
    apply_move, is_in_check, is_legal, legal_moves_of, parse_san, parse_uci, raw_status,
    san_move_of, starting_board, status_of, uci_move_of, RawStatus, Side,
};

verus! {

/// The status of the game: still running, won by the given side through
/// checkmate, or drawn by stalemate.
#[derive(Clone, Copy, Debug, PartialEq, Eq, Structural)]
pub enum Status {
    Ongoing,
    Checkmate(Side),
    Stalemate,
}

/// The game mode: two humans, or one human playing the given side
/// against the engine.
#[derive(Clone, Copy, Debug, PartialEq, Eq, Structural)]
pub enum GameMode {
    TwoPlayer,
    SinglePlayer(Side),
}

/// The mathematical state of a game: the position, the side to move,
/// the mode, the search depth, and the two matched stacks.
#[verifier::ext_equal]
pub struct GameView {
    pub board: chess::Board,
    pub turn: Side,
    pub mode: GameMode,
    pub depth: Option<u32>,
    pub history: Seq<(chess::Board, Side)>,
    pub moves: Seq<chess::ChessMove>,
}

impl GameView {
    /// A game is well formed when history and move log move in step,
    /// and a search depth of at least one ply is present exactly in
    /// single-player mode.
    pub open spec fn wf(self) -> bool {
        &&& self.history.len() == self.moves.len()
        &&& (self.mode matches GameMode::SinglePlayer(_) <==> self.depth is Some)
        &&& (self.depth matches Some(d) ==> d >= 1)
    }

    /// The state after playing a move: the prior position and side are
    /// pushed onto the history, the move onto the log, the position
    /// advances and the side to move flips.
    pub open spec fn after_move(self, mv: chess::ChessMove) -> GameView {
        GameView {
            board: crate::oracle::board_after(self.board, mv),
            turn: self.turn.spec_opposite(),
            history: self.history.push((self.board, self.turn)),
            moves: self.moves.push(mv),
            ..self
        }
    }

    /// The state after undoing the last move: the saved position and
    /// side return, and both stacks lose their top entry.
    pub open spec fn after_undo(self) -> GameView {
        GameView {
            board: self.history.last().0,
            turn: self.history.last().1,
            history: self.history.drop_last(),
            moves: self.moves.drop_last(),
            ..self
        }
    }

    /// The status derived from a state: the oracle's verdict, with a
    /// checkmated side-to-move losing to its opponent.
    pub open spec fn spec_status(self) -> Status {
        match status_of(self.board) {
            RawStatus::Ongoing => Status::Ongoing,
            RawStatus::Checkmate => Status::Checkmate(self.turn.spec_opposite()),
            RawStatus::Stalemate => Status::Stalemate,
        }
    }
}

/// Playing any move and undoing it at once restores the entire state:
/// position, side to move, history and move log.
pub proof fn lemma_move_then_undo(g: GameView, mv: chess::ChessMove)
    ensures
        g.after_move(mv).after_undo() == g,
{
    let h = g.after_move(mv).after_undo();
    assert(h.history =~= g.history);
    assert(h.moves =~= g.moves);
    assert(h =~= g);
}

/// A chess game: the current position, whose turn it is, the mode, and
/// the move and position history.
pub struct Game {
    board: chess::Board,
    turn: Side,
    game_mode: GameMode,
    recursion_depth: Option<u32>,
    history: Vec<(chess::Board, Side)>,
    moves: Vec<chess::ChessMove>,
}

impl View for Game {
    type V = GameView;

    closed spec fn view(&self) -> GameView {
        GameView {
            board: self.board,
            turn: self.turn,
            mode: self.game_mode,
            depth: self.recursion_depth,
            history: self.history@,
            moves: self.moves@,
        }
    }
}

impl Game {
    /// A well-formed game; established by the constructors and kept by
    /// every operation.
    pub open spec fn wf(self) -> bool {
        self@.wf()
    }

    /// Creates a two-player game at the standard starting position,
    /// with White to move and empty history.
    pub fn new_multi() -> (g: Game)
        ensures
            g.wf(),
            crate::oracle::is_starting_position(g@.board),
            g@.turn == Side::White,
            g@.mode == GameMode::TwoPlayer,
            g@.depth is None,
            g@.history.len() == 0,
            g@.moves.len() == 0,
    {
        Game {
            board: starting_board(),
            turn: Side::White,
            game_mode: GameMode::TwoPlayer,
            recursion_depth: None,
            history: Vec::new(),
            moves: Vec::new(),
        }
    }

    /// Creates a single-player game at the standard starting position:
    /// the human plays `player_color`, and the engine searches
    /// `recursion_depth` plies deep.
    pub fn new_single(player_color: Side, recursion_depth: u32) -> (g: Game)
        requires
            recursion_depth >= 1,
        ensures
            g.wf(),
            crate::oracle::is_starting_position(g@.board),
            g@.turn == Side::White,
            g@.mode == GameMode::SinglePlayer(player_color),
            g@.depth == Some(recursion_depth),
            g@.history.len() == 0,
            g@.moves.len() == 0,
    {
        Game {
            board: starting_board(),
            turn: Side::White,
            game_mode: GameMode::SinglePlayer(player_color),
            recursion_depth: Some(recursion_depth),
            history: Vec::new(),
            moves: Vec::new(),
        }
    }

    /// Reads a move from `input`: under coordinate (UCI) notation when
    /// `uci` holds, else under standard algebraic notation. Returns the
    /// move exactly when the text denotes one that is legal in the
    /// current position, and otherwise says what went wrong.
    pub fn parse_move(&self, input: &str, uci: bool) -> (r: Result<chess::ChessMove, String>)
        ensures
            (uci ==> (match uci_move_of(input@) {
                None => (r matches Err(e) && e@ == "Invalid input format!"@),
                Some(m) => if legal_moves_of(self@.board).contains(m) {
                    r == Ok::<chess::ChessMove, String>(m)
                } else {
                    (r matches Err(e) && e@ == "Illegal move!"@)
                },
            })),
            (!uci ==> (match san_move_of(self@.board, input@) {
                None => (r matches Err(e) && e@ == "Invalid input!"@),
                Some(m) => r == Ok::<chess::ChessMove, String>(m),
            })),
            (r matches Ok(m) ==> legal_moves_of(self@.board).contains(m)),
    {
        if uci {
            match parse_uci(input) {
                Some(mv) => {
                    if is_legal(&self.board, mv) {
                        Ok(mv)
                    } else {
                        Err(String::from_str("Illegal move!"))
                    }
                },
                None => Err(String::from_str("Invalid input format!")),
            }
        } else {
            match parse_san(&self.board, input) {
                Some(mv) => Ok(mv),
                None => Err(String::from_str("Invalid input!")),
            }
        }
    }

    /// Plays a legal move: saves the prior position and side on the
    /// history, advances the position, flips the turn and logs the
    /// move. The side to move is never the same twice in a row.
    pub fn make_move(&mut self, mv: chess::ChessMove)
        requires
            old(self).wf(),
            legal_moves_of(old(self)@.board).contains(mv),
        ensures
            final(self).wf(),
            final(self)@ == old(self)@.after_move(mv),
            final(self)@.turn != old(self)@.turn,
    {
        self.history.push((self.board, self.turn));
        self.board = apply_move(&self.board, mv);
        self.turn = self.turn.opposite();
        self.moves.push(mv);
        assert(self@ =~= old(self)@.after_move(mv));
    }

    /// Reads a move from `input` as `parse_move` does and plays it.
    /// On a parse or legality error the state is left untouched.
    pub fn make_move_from_str(&mut self, input: &str, uci: bool) -> (r: Result<(), String>)
        requires
            old(self).wf(),
        ensures
            final(self).wf(),
            (r is Err ==> final(self)@ == old(self)@),
            (uci ==> (match uci_move_of(input@) {
                None => (r matches Err(e) && e@ == "Invalid input format!"@),
                Some(m) => if legal_moves_of(old(self)@.board).contains(m) {
                    r is Ok && final(self)@ == old(self)@.after_move(m)
                } else {
                    (r matches Err(e) && e@ == "Illegal move!"@)
                },
            })),
            (!uci ==> (match san_move_of(old(self)@.board, input@) {
                None => (r matches Err(e) && e@ == "Invalid input!"@),
                Some(m) => r is Ok && final(self)@ == old(self)@.after_move(m),
            })),
    {
        match self.parse_move(input, uci) {
            Ok(mv) => {
                self.make_move(mv);
                Ok(())
            },
            Err(e) => Err(e),
        }
    }

    /// Undoes the last move, restoring the saved position and side and
    /// shortening both stacks by one; with no history it reports
    /// failure and changes nothing.
    pub fn undo(&mut self) -> (r: Result<(), String>)
        requires
            old(self).wf(),
        ensures
            final(self).wf(),
            (old(self)@.history.len() == 0 ==> (r matches Err(e) && e@ == "No moves to undo!"@
                && final(self)@ == old(self)@)),
            (old(self)@.history.len() > 0 ==> r is Ok && final(self)@ == old(self)@.after_undo()),
    {
        if let Some((prev_board, prev_turn)) = self.history.pop() {
            self.board = prev_board;
            self.turn = prev_turn;
            self.moves.pop();
            assert(self@ =~= old(self)@.after_undo());
            Ok(())
        } else {
            Err(String::from_str("No moves to undo!"))
        }
    }

    /// The status of the game. Checkmate names the winner: the side
    /// that is not to move, since the mover has no reply while in
    /// check. A checkmate verdict comes only with an empty legal-move
    /// list and the mover in check; stalemate only with an empty list
    /// and no check; ongoing only with moves left.
    pub fn status(&self) -> (r: Status)
        ensures
            r == self@.spec_status(),
            (r matches Status::Checkmate(w) ==> w == self@.turn.spec_opposite()
                && legal_moves_of(self@.board).len() == 0 && is_in_check(self@.board)),
            (r == Status::Stalemate ==> legal_moves_of(self@.board).len() == 0 && !is_in_check(
                self@.board,
            )),
            (r == Status::Ongoing ==> legal_moves_of(self@.board).len() > 0),
    {
        match raw_status(&self.board) {
            RawStatus::Ongoing => Status::Ongoing,
            RawStatus::Checkmate => Status::Checkmate(self.turn.opposite()),
            RawStatus::Stalemate => Status::Stalemate,
        }
    }

    /// The side to move.
    pub fn turn(&self) -> (r: Side)
        ensures
            r == self@.turn,
    {
        self.turn
    }

    /// The current position, read-only.
    pub fn board(&self) -> (r: &chess::Board)
        ensures
            *r == self@.board,
    {
        &self.board
    }

    /// The log of the moves played so far, read-only.
    pub fn moves(&self) -> (r: &Vec<chess::ChessMove>)
        ensures
            r@ == self@.moves,
    {
        &self.moves
    }

    /// Asks the engine for a move for the computer side. In two-player
    /// mode there is no computer and the request fails; in
    /// single-player mode it returns a legal move exactly when the game
    /// is still ongoing, and otherwise reports that no move is left.
    /// The returned move is one the search rates best: its subtree
    /// carries the full search value of the position.
    pub fn get_ai_move(&self) -> (r: Result<chess::ChessMove, String>)
        requires
            self.wf(),
        ensures
            (self@.mode == GameMode::TwoPlayer ==> (r matches Err(e) && e@
                == "AI can only be used in single player mode"@)),
            (self@.mode matches GameMode::SinglePlayer(_) ==> (r is Ok <==> status_of(self@.board)
                == RawStatus::Ongoing)),
            (self@.mode matches GameMode::SinglePlayer(_) && status_of(self@.board)
                != RawStatus::Ongoing ==> (r matches Err(e) && e@
                == "No legal moves for AI available"@)),
            (r matches Ok(m) ==> legal_moves_of(self@.board).contains(m)),
            (self@.mode matches GameMode::SinglePlayer(h) ==> (r matches Ok(m)
                ==> crate::ai::minimax_value(
                crate::oracle::board_after(self@.board, m),
                (self@.depth->0 - 1) as nat,
                false,
                h,
            ) == crate::ai::minimax_value(
                self@.board,
                self@.depth->0 as nat,
                true,
                h.spec_opposite(),
            ))),
    {
        let ai_color = match self.game_mode {
            GameMode::SinglePlayer(player_color) => player_color.opposite(),
            GameMode::TwoPlayer => {
                return Err(String::from_str("AI can only be used in single player mode"));
            },
        };
        let (_eval, best_move) = minimax(
            &self.board,
            self.recursion_depth.unwrap(),
            true,
            ai_color,
            i32::MIN,
            i32::MAX,
        );
        match best_move {
            Some(m) => Ok(m),
            None => Err(String::from_str("No legal moves for AI available")),
        }
    }
}

} // verus!
