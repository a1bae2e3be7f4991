//! The material evaluator: the signed sum of piece values from the side to
//! move.
use vstd::prelude::*;
use std::cmp::Ordering;
use crate::heuristic::{compare, larger};
use crate::position::{Color, ChessPosition, Piece, PieceKind, PositionView, MAX_PIECES};
use crate::solver::{terminal_value, SolverHeuristic, LOSS_VALUE, WIN_VALUE};

verus! {

/// Fixed points of each kind of piece. The king counts nothing: every
/// position has one on each side.
pub open spec fn piece_value(kind: PieceKind) -> int {
    match kind {
        PieceKind::Pawn => 1,
        PieceKind::Knight => 3,
        PieceKind::Bishop => 3,
        PieceKind::Rook => 5,
        PieceKind::Queen => 9,
        PieceKind::King => 0,
    }
}

/// What one piece adds to the total of `side`: its value if it is `side`'s,
/// else minus its value.
pub open spec fn signed_value(piece: Piece, side: Color) -> int {
    if piece.color == side {
        piece_value(piece.kind)
    } else {
        -piece_value(piece.kind)
    }
}

/// The material balance of `pieces` for `side`.
pub open spec fn material(pieces: Seq<Piece>, side: Color) -> int
    decreases pieces.len(),
{
    if pieces.len() == 0 {
        0
    } else {
        material(pieces.drop_last(), side) + signed_value(pieces.last(), side)
    }
}

/// What the material evaluator returns for a position: the exact value of a
/// concluded game, else the material balance for the side to move.
pub open spec fn material_value(p: PositionView) -> int {
    if p.outcome is Some {
        terminal_value(p).to_i32_spec() as int
    } else {
        material(p.pieces, p.side_to_move)
    }
}

/// The balance never exceeds nine points a piece either way.
pub proof fn lemma_material_bound(pieces: Seq<Piece>, side: Color)
    ensures
        -9 * pieces.len() <= material(pieces, side) <= 9 * pieces.len(),
    decreases pieces.len(),
{
    if pieces.len() > 0 {
        lemma_material_bound(pieces.drop_last(), side);
    }
}

/// The same pieces seen from the two sides give balances that are exact
/// negations of each other.
pub proof fn lemma_material_antisymmetric(pieces: Seq<Piece>, side: Color)
    ensures
        material(pieces, side) == -material(pieces, side.opponent_spec()),
    decreases pieces.len(),
{
    if pieces.len() > 0 {
        lemma_material_antisymmetric(pieces.drop_last(), side);
    }
}

/// Two positions that differ only in the side to move, neither of them
/// concluded, get values that are exact negations of each other.
pub proof fn lemma_value_antisymmetric(p: PositionView, q: PositionView)
    requires
        p.outcome is None,
        q.outcome is None,
        p.pieces == q.pieces,
        q.side_to_move == p.side_to_move.opponent_spec(),
    ensures
        material_value(p) == -material_value(q),
{
    lemma_material_antisymmetric(p.pieces, p.side_to_move);
}

/// On a board that is not over the estimate lies strictly between the
/// values of a decisive loss and a decisive win.
pub proof fn lemma_estimate_dominated(p: PositionView)
    requires
        p.pieces.len() <= MAX_PIECES,
        p.outcome is None,
    ensures
        LOSS_VALUE < material_value(p) < WIN_VALUE,
{
    lemma_material_bound(p.pieces, p.side_to_move);
}

/// The points of one piece of the given kind.
pub fn piece_points(kind: PieceKind) -> (r: i32)
    ensures
        r == piece_value(kind),
{
    match kind {
        PieceKind::Pawn => 1,
        PieceKind::Knight | PieceKind::Bishop => 3,
        PieceKind::Rook => 5,
        PieceKind::Queen => 9,
        PieceKind::King => 0,
    }
}

/// The evaluator that counts material.
#[derive(Debug, Clone, Copy)]
pub struct ChessPieceValueHeuristic;

impl ChessPieceValueHeuristic {
    /// The exact value of a concluded position, else the material balance
    /// for the side to move; the same at every remaining depth.
    pub fn value(&self, board: &ChessPosition, length: u32) -> (r: i32)
        requires
            board.wf(),
        ensures
            r == material_value(board@),
            board@.outcome is Some ==> r == terminal_value(board@).to_i32_spec(),
    {
        if board.is_done() {
            return SolverHeuristic.value(board, length).to_i32();
        }
        let pieces = board.pieces();
        let side = board.side_to_move();
        let mut total: i32 = 0;
        let mut i: usize = 0;
        while i < pieces.len()
            invariant
                i <= pieces@.len() <= MAX_PIECES,
                total == material(pieces@.take(i as int), side),
            decreases pieces@.len() - i,
        {
            let piece = pieces[i];
            proof {
                assert(pieces@.take(i + 1).drop_last() == pieces@.take(i as int));
                lemma_material_bound(pieces@.take(i as int), side);
            }
            let value = piece_points(piece.kind);
            if piece.color == side {
                total = total + value;
            } else {
                total = total - value;
            }
            i = i + 1;
        }
        assert(pieces@.take(i as int) == pieces@);
        total
    }

    /// Keeps the larger of `old` and `new` and reports how `new` compares
    /// with `old`.
    pub fn merge(old: i32, new: i32) -> (r: (i32, Ordering))
        ensures
            r.0 == larger(old as int, new as int),
            r.1 == compare(new as int, old as int),
    {
        if new < old {
            (old, Ordering::Less)
        } else if new == old {
            (old, Ordering::Equal)
        } else {
            (new, Ordering::Greater)
        }
    }
}

} // verus!
