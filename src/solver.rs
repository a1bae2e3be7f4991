//! Exact values of concluded games.
use vstd::prelude::*;
use std::cmp::Ordering;
use crate::heuristic::{compare, larger};
use crate::position::{ChessPosition, Outcome, PositionView};

verus! {

/// What a decisive win for the side to move is worth on the `i32` scale.
/// No estimate of a position that is not over reaches it.
pub const WIN_VALUE: i32 = i32::MAX;

/// What a decisive loss for the side to move is worth on the `i32` scale.
pub const LOSS_VALUE: i32 = -i32::MAX;

/// The exact value of a concluded game, from the side to move.
#[derive(Debug, Clone, Copy, PartialEq, Eq, Structural)]
pub enum SolverValue {
    Win,
    Draw,
    Loss,
}

impl SolverValue {
    /// The place of the value in the order loss < draw < win.
    pub open spec fn rank(self) -> int {
        match self {
            SolverValue::Loss => -1,
            SolverValue::Draw => 0,
            SolverValue::Win => 1,
        }
    }

    pub open spec fn to_i32_spec(self) -> i32 {
        match self {
            SolverValue::Win => WIN_VALUE,
            SolverValue::Draw => 0,
            SolverValue::Loss => LOSS_VALUE,
        }
    }

    /// The value on the `i32` scale of the estimating evaluators.
    pub fn to_i32(self) -> (r: i32)
        ensures
            r == self.to_i32_spec(),
    {
        match self {
            SolverValue::Win => WIN_VALUE,
            SolverValue::Draw => 0,
            SolverValue::Loss => LOSS_VALUE,
        }
    }
}

/// The exact value of a concluded position for the side to move.
pub open spec fn terminal_value(p: PositionView) -> SolverValue
    recommends
        p.outcome is Some,
{
    match p.outcome {
        Some(Outcome::WonBy(c)) => if c == p.side_to_move {
            SolverValue::Win
        } else {
            SolverValue::Loss
        },
        _ => SolverValue::Draw,
    }
}

/// A win is worth more than a draw, and a draw more than a loss, both in
/// the resolver's own order and on the `i32` scale; the `i32` values are
/// exact negations of each other.
pub proof fn lemma_terminal_order()
    ensures
        SolverValue::Win.rank() > SolverValue::Draw.rank() > SolverValue::Loss.rank(),
        SolverValue::Win.to_i32_spec() > SolverValue::Draw.to_i32_spec()
            > SolverValue::Loss.to_i32_spec(),
        SolverValue::Win.to_i32_spec() == -SolverValue::Loss.to_i32_spec(),
{
}

/// The evaluator that gives concluded positions their exact value.
#[derive(Debug, Clone, Copy)]
pub struct SolverHeuristic;

impl SolverHeuristic {
    /// The exact value of a concluded position, whatever the remaining depth.
    pub fn value(&self, board: &ChessPosition, length: u32) -> (r: SolverValue)
        requires
            board@.outcome is Some,
        ensures
            r == terminal_value(board@),
    {
        match board.outcome() {
            Some(Outcome::WonBy(c)) => if c == board.side_to_move() {
                SolverValue::Win
            } else {
                SolverValue::Loss
            },
            _ => SolverValue::Draw,
        }
    }

    /// Keeps the better of `old` and `new` and reports how `new` compares
    /// with `old`.
    pub fn merge(old: SolverValue, new: SolverValue) -> (r: (SolverValue, Ordering))
        ensures
            r.0.rank() == larger(old.rank(), new.rank()),
            r.1 == compare(new.rank(), old.rank()),
    {
        let o: i8 = match old {
            SolverValue::Loss => -1,
            SolverValue::Draw => 0,
            SolverValue::Win => 1,
        };
        let n: i8 = match new {
            SolverValue::Loss => -1,
            SolverValue::Draw => 0,
            SolverValue::Win => 1,
        };
        if n < o {
            (old, Ordering::Less)
        } else if n == o {
            (old, Ordering::Equal)
        } else {
            (new, Ordering::Greater)
        }
    }
}

} // verus!
