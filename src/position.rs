//! The board positions that the chess evaluators read.
use vstd::prelude::*;

verus! {

/// Most pieces a board can hold: one on each square.
pub const MAX_PIECES: usize = 64;

/// A side of the board.
#[derive(Debug, Clone, Copy, PartialEq, Eq, Structural)]
pub enum Color {
    White,
    Black,
}

impl Color {
    pub open spec fn opponent_spec(self) -> Color {
        match self {
            Color::White => Color::Black,
            Color::Black => Color::White,
        }
    }

    /// The other side.
    pub fn opponent(self) -> (r: Color)
        ensures
            r == self.opponent_spec(),
    {
        match self {
            Color::White => Color::Black,
            Color::Black => Color::White,
        }
    }
}

/// The kind of a chess piece.
#[derive(Debug, Clone, Copy, PartialEq, Eq, Structural)]
pub enum PieceKind {
    Pawn,
    Knight,
    Bishop,
    Rook,
    Queen,
    King,
}

/// A piece on the board: its kind and the side it belongs to.
#[derive(Debug, Clone, Copy, PartialEq, Eq, Structural)]
pub struct Piece {
    pub kind: PieceKind,
    pub color: Color,
}

/// How a concluded game ended.
#[derive(Debug, Clone, Copy, PartialEq, Eq, Structural)]
pub enum Outcome {
    WonBy(Color),
    Draw,
}

/// What the evaluators see of a position.
pub ghost struct PositionView {
    pub side_to_move: Color,
    pub pieces: Seq<Piece>,
    pub outcome: Option<Outcome>,
}

/// A chess position: the side to move, the pieces on the board, and the
/// outcome once the game is over.
#[derive(Debug, Clone)]
pub struct ChessPosition {
    side_to_move: Color,
    pieces: Vec<Piece>,
    outcome: Option<Outcome>,
}

impl View for ChessPosition {
    type V = PositionView;

    closed spec fn view(&self) -> PositionView {
        PositionView { side_to_move: self.side_to_move, pieces: self.pieces@, outcome: self.outcome }
    }
}

impl ChessPosition {
    /// No more pieces than squares.
    pub open spec fn wf(&self) -> bool {
        self@.pieces.len() <= MAX_PIECES
    }

    /// The position with these parts, or `None` where there are more pieces
    /// than squares.
    pub fn new(side_to_move: Color, pieces: Vec<Piece>, outcome: Option<Outcome>) -> (r: Option<
        ChessPosition,
    >)
        ensures
            r is Some <==> pieces@.len() <= MAX_PIECES,
            r matches Some(p) ==> p.wf() && p@ == (PositionView {
                side_to_move,
                pieces: pieces@,
                outcome,
            }),
    {
        if pieces.len() <= MAX_PIECES {
            Some(ChessPosition { side_to_move, pieces, outcome })
        } else {
            None
        }
    }

    /// Whether the game is over.
    pub fn is_done(&self) -> (r: bool)
        ensures
            r == self@.outcome is Some,
    {
        self.outcome.is_some()
    }

    /// The side whose turn it is.
    pub fn side_to_move(&self) -> (r: Color)
        ensures
            r == self@.side_to_move,
    {
        self.side_to_move
    }

    /// How the game ended, if it has.
    pub fn outcome(&self) -> (r: Option<Outcome>)
        ensures
            r == self@.outcome,
    {
        self.outcome
    }

    /// The pieces on the board.
    pub fn pieces(&self) -> (r: &Vec<Piece>)
        ensures
            r@ == self@.pieces,
    {
        &self.pieces
    }
}

} // verus!
