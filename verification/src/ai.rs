//! The evaluator and the search engine: static material scoring of a
//! position, and depth-limited minimax with alpha-beta pruning over the
//! oracle's legal moves.

use vstd::math::{max, min};
use vstd::prelude::*;

use crate::oracle::{
    apply_move, board_after, color_at, color_on, legal_moves, legal_moves_of, piece_at, piece_on,
    raw_status, status_of, Piece, RawStatus, Side,
};

verus! {

/// The material value of a piece: pawn 1, knight 3, bishop 3, rook 5,
/// queen 9, king 20. The king's value is finite by design.
pub open spec fn spec_piece_value(p: Piece) -> int {
    match p {
        Piece::Pawn => 1,
        Piece::Knight => 3,
        Piece::Bishop => 3,
        Piece::Rook => 5,
        Piece::Queen => 9,
        Piece::King => 20,
    }
}

/// What one square contributes to the score from `persp`'s view: its
/// occupant's value, counted for the owner and against the opponent.
pub open spec fn square_score(b: chess::Board, persp: Side, idx: int) -> int {
    match color_at(b, idx) {
        None => 0,
        Some(owner) => match piece_at(b, idx) {
            None => 0,
            Some(p) => if owner == persp {
                spec_piece_value(p)
            } else {
                -spec_piece_value(p)
            },
        },
    }
}

/// The summed scores of the first `n` squares.
pub open spec fn eval_prefix(b: chess::Board, persp: Side, n: int) -> int
    decreases n,
{
    if n <= 0 {
        0
    } else {
        eval_prefix(b, persp, n - 1) + square_score(b, persp, n - 1)
    }
}

/// The evaluation of a position from one side's perspective: the
/// material balance over all 64 squares.
pub open spec fn evaluation(b: chess::Board, persp: Side) -> int {
    eval_prefix(b, persp, 64)
}

/// No evaluation leaves [-1280, 1280]: 64 squares of at most 20 each.
pub open spec fn eval_bound() -> int {
    1280
}

proof fn lemma_square_score_bound(b: chess::Board, persp: Side, idx: int)
    ensures
        -20 <= square_score(b, persp, idx) <= 20,
{
}

proof fn lemma_eval_prefix_bound(b: chess::Board, persp: Side, n: int)
    requires
        0 <= n,
    ensures
        -20 * n <= eval_prefix(b, persp, n) <= 20 * n,
    decreases n,
{
    if n > 0 {
        lemma_eval_prefix_bound(b, persp, n - 1);
        lemma_square_score_bound(b, persp, n - 1);
    }
}

proof fn lemma_square_score_symmetry(b: chess::Board, persp: Side, idx: int)
    ensures
        square_score(b, persp, idx) == -square_score(b, persp.spec_opposite(), idx),
{
}

proof fn lemma_eval_prefix_symmetry(b: chess::Board, persp: Side, n: int)
    requires
        0 <= n,
    ensures
        eval_prefix(b, persp, n) == -eval_prefix(b, persp.spec_opposite(), n),
    decreases n,
{
    if n > 0 {
        lemma_eval_prefix_symmetry(b, persp, n - 1);
        lemma_square_score_symmetry(b, persp, n - 1);
    }
}

/// The evaluator is antisymmetric in the perspective: what one side
/// gains, the other loses, on any position.
pub proof fn lemma_evaluation_symmetry(b: chess::Board, persp: Side)
    ensures
        evaluation(b, persp) == -evaluation(b, persp.spec_opposite()),
{
    lemma_eval_prefix_symmetry(b, persp, 64);
}

/// The evaluation always lies within [-1280, 1280].
pub proof fn lemma_evaluation_bound(b: chess::Board, persp: Side)
    ensures
        -eval_bound() <= evaluation(b, persp) <= eval_bound(),
{
    lemma_eval_prefix_bound(b, persp, 64);
}

/// The material value of a piece, as executable code.
pub fn piece_value(p: Piece) -> (v: i32)
    ensures
        v == spec_piece_value(p),
{
    match p {
        Piece::Pawn => 1,
        Piece::Knight => 3,
        Piece::Bishop => 3,
        Piece::Rook => 5,
        Piece::Queen => 9,
        Piece::King => 20,
    }
}

/// Scores a position from `perspective`'s view: for every occupied
/// square, adds the occupant's material value if it belongs to
/// `perspective` and subtracts it otherwise.
pub fn evaluate(board: &chess::Board, perspective: Side) -> (score: i32)
    ensures
        score == evaluation(*board, perspective),
        -eval_bound() <= score <= eval_bound(),
{
    let mut score: i32 = 0;
    let mut idx: u8 = 0;
    while idx < 64
        invariant
            idx <= 64,
            score == eval_prefix(*board, perspective, idx as int),
            -20 * idx as int <= score as int <= 20 * idx as int,
        decreases 64 - idx,
    {
        let occupant = piece_on(board, idx);
        let owner = color_on(board, idx);
        if let Some(p) = occupant {
            let v = piece_value(p);
            let mine = match owner {
                Some(s) => s == perspective,
                None => false,
            };
            if mine {
                score = score + v;
            } else {
                score = score - v;
            }
        }
        idx = idx + 1;
    }
    score
}

/// The value of a full minimax search without pruning: the bare
/// evaluation at depth 0 or on an ended game, and otherwise the best
/// of the children's values, each child searched one ply shallower
/// with the maximizing flag and the perspective both flipped.
pub open spec fn minimax_value(b: chess::Board, depth: nat, maximizing: bool, persp: Side) -> int
    decreases depth, legal_moves_of(b).len() + 1,
{
    if depth == 0 || status_of(b) != RawStatus::Ongoing {
        evaluation(b, persp)
    } else {
        best_value(b, depth, maximizing, persp, 0)
    }
}

/// The best minimax value among the moves of `b` from index `i` on:
/// the greatest when maximizing, the least when minimizing, with the
/// extreme integer as the value of an empty tail.
pub open spec fn best_value(b: chess::Board, depth: nat, maximizing: bool, persp: Side, i: int) -> int
    decreases depth, legal_moves_of(b).len() - i,
{
    if depth == 0 || i < 0 || i >= legal_moves_of(b).len() {
        if maximizing {
            i32::MIN as int
        } else {
            i32::MAX as int
        }
    } else {
        let child = minimax_value(
            board_after(b, legal_moves_of(b)[i]),
            (depth - 1) as nat,
            !maximizing,
            persp.spec_opposite(),
        );
        let rest = best_value(b, depth, maximizing, persp, i + 1);
        if maximizing {
            max(child, rest)
        } else {
            min(child, rest)
        }
    }
}

/// The minimax value of the position reached by the `i`th move of `b`,
/// searched one ply shallower with flag and perspective flipped.
pub open spec fn child_value(b: chess::Board, depth: nat, maximizing: bool, persp: Side, i: int) -> int {
    minimax_value(
        board_after(b, legal_moves_of(b)[i]),
        (depth - 1) as nat,
        !maximizing,
        persp.spec_opposite(),
    )
}

/// The best over a tail of the moves is no worse than any one child in
/// that tail.
proof fn lemma_best_value_covers_child(
    b: chess::Board,
    depth: nat,
    maximizing: bool,
    persp: Side,
    i: int,
    j: int,
)
    requires
        depth >= 1,
        0 <= i <= j < legal_moves_of(b).len(),
    ensures
        maximizing ==> best_value(b, depth, maximizing, persp, i) >= child_value(
            b,
            depth,
            maximizing,
            persp,
            j,
        ),
        !maximizing ==> best_value(b, depth, maximizing, persp, i) <= child_value(
            b,
            depth,
            maximizing,
            persp,
            j,
        ),
    decreases j - i,
{
    if i < j {
        lemma_best_value_covers_child(b, depth, maximizing, persp, i + 1, j);
    }
}

/// A bound that holds of every child in a tail of the moves holds of
/// the best over that tail.
proof fn lemma_best_value_within_bound(
    b: chess::Board,
    depth: nat,
    maximizing: bool,
    persp: Side,
    i: int,
    c: int,
)
    requires
        depth >= 1,
        0 <= i <= legal_moves_of(b).len(),
        maximizing ==> c >= i32::MIN as int,
        !maximizing ==> c <= i32::MAX as int,
        maximizing ==> forall|j: int|
            i <= j < legal_moves_of(b).len() ==> child_value(b, depth, maximizing, persp, j) <= c,
        !maximizing ==> forall|j: int|
            i <= j < legal_moves_of(b).len() ==> child_value(b, depth, maximizing, persp, j) >= c,
    ensures
        maximizing ==> best_value(b, depth, maximizing, persp, i) <= c,
        !maximizing ==> best_value(b, depth, maximizing, persp, i) >= c,
    decreases legal_moves_of(b).len() - i,
{
    if i < legal_moves_of(b).len() {
        lemma_best_value_within_bound(b, depth, maximizing, persp, i + 1, c);
        assert(child_value(b, depth, maximizing, persp, i) == minimax_value(
            board_after(b, legal_moves_of(b)[i]),
            (depth - 1) as nat,
            !maximizing,
            persp.spec_opposite(),
        ));
    }
}

/// Depth-limited minimax search with alpha-beta pruning, rooted at
/// `board` and scored from `perspective`'s view. At depth 0 or on an
/// ended game it returns the bare evaluation and no move; otherwise it
/// returns the score of the best line and a legal move reaching it,
/// taking the first-enumerated move on ties. Once `beta <= alpha` the
/// remaining sibling moves are skipped.
///
/// Pruning never changes the answer: called on a window that strictly
/// brackets its result, the search returns exactly the unpruned
/// `minimax_value` of the position, and a move whose subtree attains
/// it; a result outside the window is a sound fail-soft bound.
pub fn minimax(
    board: &chess::Board,
    depth: u32,
    maximizing: bool,
    perspective: Side,
    alpha: i32,
    beta: i32,
) -> (r: (i32, Option<chess::ChessMove>))
    ensures
        -eval_bound() <= r.0 <= eval_bound(),
        ((depth == 0 || status_of(*board) != RawStatus::Ongoing) ==> (r.0 == evaluation(
            *board,
            perspective,
        ) && r.1 is None)),
        (r.1 matches Some(m) ==> legal_moves_of(*board).contains(m)),
        ((depth >= 1 && status_of(*board) == RawStatus::Ongoing) ==> r.1 is Some),
        ((alpha < beta && r.0 > alpha) ==> minimax_value(*board, depth as nat, maximizing,
        perspective) >= r.0),
        ((alpha < beta && r.0 < beta) ==> minimax_value(*board, depth as nat, maximizing,
        perspective) <= r.0),
        ((alpha < beta && alpha < r.0 && r.0 < beta) ==> (r.1 matches Some(m) ==> minimax_value(
            board_after(*board, m),
            (depth - 1) as nat,
            !maximizing,
            perspective.spec_opposite(),
        ) == r.0)),
    decreases depth,
{
    let status = raw_status(board);
    if depth == 0 || status != RawStatus::Ongoing {
        return (evaluate(board, perspective), None);
    }
    let moves = legal_moves(board);
    let mut best_move: Option<chess::ChessMove> = None;
    let mut best_eval: i32 = if maximizing {
        i32::MIN
    } else {
        i32::MAX
    };
    let ghost alpha0 = alpha;
    let ghost beta0 = beta;
    let ghost mut chosen: int = 0;
    let mut alpha = alpha;
    let mut beta = beta;
    let mut pruned: bool = false;
    let mut i: usize = 0;
    while i < moves.len() && !pruned
        invariant
            moves@ == legal_moves_of(*board),
            moves@.len() > 0,
            depth >= 1,
            status_of(*board) == RawStatus::Ongoing,
            i <= moves@.len(),
            (i == 0 ==> !pruned),
            (best_move is None <==> i == 0),
            (best_move is None ==> best_eval == (if maximizing {
                i32::MIN
            } else {
                i32::MAX
            })),
            (best_move matches Some(m) ==> legal_moves_of(*board).contains(m)),
            (best_move is Some ==> -eval_bound() <= best_eval <= eval_bound()),
            (maximizing ==> beta == beta0),
            (!maximizing ==> alpha == alpha0),
            (maximizing ==> alpha as int == max(alpha0 as int, best_eval as int)),
            (!maximizing ==> beta as int == min(beta0 as int, best_eval as int)),
            (pruned ==> beta <= alpha),
            (alpha0 < beta0 && !pruned ==> alpha < beta),
            (best_move matches Some(m) ==> 0 <= chosen < i && m == moves@[chosen]),
            ((alpha0 < beta0 && maximizing && best_move is Some && best_eval > alpha0)
                ==> child_value(*board, depth as nat, maximizing, perspective, chosen)
                >= best_eval as int),
            ((alpha0 < beta0 && !maximizing && best_move is Some && best_eval < beta0)
                ==> child_value(*board, depth as nat, maximizing, perspective, chosen)
                <= best_eval as int),
            ((alpha0 < beta0 && maximizing && best_eval < beta0) ==> forall|j: int|
                0 <= j < i ==> child_value(*board, depth as nat, maximizing, perspective, j)
                    <= best_eval as int),
            ((alpha0 < beta0 && !maximizing && best_eval > alpha0) ==> forall|j: int|
                0 <= j < i ==> child_value(*board, depth as nat, maximizing, perspective, j)
                    >= best_eval as int),
        decreases moves@.len() - i,
    {
        let m = moves[i];
        let child = apply_move(board, m);
        let (eval, _) = minimax(&child, depth - 1, !maximizing, perspective.opposite(), alpha, beta);
        proof {
            assert(child_value(*board, depth as nat, maximizing, perspective, i as int)
                == minimax_value(child, (depth - 1) as nat, !maximizing,
            perspective.spec_opposite()));
        }
        if maximizing {
            if eval > best_eval {
                best_eval = eval;
                best_move = Some(m);
                proof {
                    chosen = i as int;
                }
            }
            if eval > alpha {
                alpha = eval;
            }
        } else {
            if eval < best_eval {
                best_eval = eval;
                best_move = Some(m);
                proof {
                    chosen = i as int;
                }
            }
            if eval < beta {
                beta = eval;
            }
        }
        if beta <= alpha {
            pruned = true;
        }
        i = i + 1;
    }
    proof {
        if alpha0 < beta0 {
            if best_eval > alpha0 {
                if maximizing {
                    lemma_best_value_covers_child(
                        *board,
                        depth as nat,
                        maximizing,
                        perspective,
                        0,
                        chosen,
                    );
                } else {
                    lemma_best_value_within_bound(
                        *board,
                        depth as nat,
                        maximizing,
                        perspective,
                        0,
                        best_eval as int,
                    );
                }
            }
            if best_eval < beta0 {
                if maximizing {
                    lemma_best_value_within_bound(
                        *board,
                        depth as nat,
                        maximizing,
                        perspective,
                        0,
                        best_eval as int,
                    );
                } else {
                    lemma_best_value_covers_child(
                        *board,
                        depth as nat,
                        maximizing,
                        perspective,
                        0,
                        chosen,
                    );
                }
            }
        }
    }
    (best_eval, best_move)
}

} // verus!
