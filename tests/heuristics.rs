use std::cmp::Ordering;

use game_eval::material::{piece_points, ChessPieceValueHeuristic};
use game_eval::position::{ChessPosition, Color, Outcome, Piece, PieceKind, MAX_PIECES};
use game_eval::solver::{SolverHeuristic, SolverValue, LOSS_VALUE, WIN_VALUE};

fn piece(kind: PieceKind, color: Color) -> Piece {
    Piece { kind, color }
}

fn position(side: Color, pieces: Vec<Piece>, outcome: Option<Outcome>) -> ChessPosition {
    ChessPosition::new(side, pieces, outcome).unwrap()
}

fn start_pieces() -> Vec<Piece> {
    let mut pieces = Vec::new();
    for color in [Color::White, Color::Black] {
        for _ in 0..8 {
            pieces.push(piece(PieceKind::Pawn, color));
        }
        for kind in [
            PieceKind::Rook,
            PieceKind::Knight,
            PieceKind::Bishop,
            PieceKind::Queen,
            PieceKind::King,
            PieceKind::Bishop,
            PieceKind::Knight,
            PieceKind::Rook,
        ] {
            pieces.push(piece(kind, color));
        }
    }
    pieces
}

#[test]
fn queen_against_rook_is_four() {
    let pieces = vec![
        piece(PieceKind::Queen, Color::White),
        piece(PieceKind::Rook, Color::Black),
    ];
    let white = position(Color::White, pieces.clone(), None);
    let black = position(Color::Black, pieces, None);
    assert_eq!(ChessPieceValueHeuristic.value(&white, 3), 4);
    assert_eq!(ChessPieceValueHeuristic.value(&black, 3), -4);
}

#[test]
fn piece_table_values() {
    assert_eq!(piece_points(PieceKind::Pawn), 1);
    assert_eq!(piece_points(PieceKind::Knight), 3);
    assert_eq!(piece_points(PieceKind::Bishop), 3);
    assert_eq!(piece_points(PieceKind::Rook), 5);
    assert_eq!(piece_points(PieceKind::Queen), 9);
    assert_eq!(piece_points(PieceKind::King), 0);
}

#[test]
fn kings_alone_are_even() {
    let pieces = vec![
        piece(PieceKind::King, Color::White),
        piece(PieceKind::King, Color::Black),
    ];
    assert_eq!(ChessPieceValueHeuristic.value(&position(Color::White, pieces, None), 0), 0);
}

#[test]
fn empty_board_is_even() {
    assert_eq!(ChessPieceValueHeuristic.value(&position(Color::Black, vec![], None), 0), 0);
}

#[test]
fn starting_material_is_even() {
    let pos = position(Color::White, start_pieces(), None);
    assert_eq!(ChessPieceValueHeuristic.value(&pos, 5), 0);
}

#[test]
fn material_is_antisymmetric() {
    let mut pieces = start_pieces();
    pieces.retain(|p| !(p.color == Color::Black && p.kind == PieceKind::Knight));
    pieces.push(piece(PieceKind::Pawn, Color::Black));
    let white = position(Color::White, pieces.clone(), None);
    let black = position(Color::Black, pieces, None);
    let w = ChessPieceValueHeuristic.value(&white, 2);
    let b = ChessPieceValueHeuristic.value(&black, 2);
    assert_eq!(w, 5);
    assert_eq!(w, -b);
}

#[test]
fn full_board_of_queens_is_accepted() {
    let pieces = vec![piece(PieceKind::Queen, Color::White); MAX_PIECES];
    let pos = position(Color::White, pieces, None);
    assert_eq!(ChessPieceValueHeuristic.value(&pos, 1), 576);
    let too_many = vec![piece(PieceKind::Pawn, Color::White); MAX_PIECES + 1];
    assert!(ChessPosition::new(Color::White, too_many, None).is_none());
}

#[test]
fn concluded_position_uses_resolver() {
    let pieces = vec![
        piece(PieceKind::Queen, Color::White),
        piece(PieceKind::King, Color::White),
        piece(PieceKind::King, Color::Black),
    ];
    let lost = position(Color::Black, pieces.clone(), Some(Outcome::WonBy(Color::White)));
    let won = position(Color::White, pieces.clone(), Some(Outcome::WonBy(Color::White)));
    let drawn = position(Color::White, pieces, Some(Outcome::Draw));
    for depth in [0, 1, 7] {
        assert_eq!(SolverHeuristic.value(&lost, depth), SolverValue::Loss);
        assert_eq!(SolverHeuristic.value(&won, depth), SolverValue::Win);
        assert_eq!(SolverHeuristic.value(&drawn, depth), SolverValue::Draw);
        assert_eq!(ChessPieceValueHeuristic.value(&lost, depth), LOSS_VALUE);
        assert_eq!(ChessPieceValueHeuristic.value(&won, depth), WIN_VALUE);
        assert_eq!(ChessPieceValueHeuristic.value(&drawn, depth), 0);
    }
}

#[test]
fn terminal_values_are_ordered() {
    let win = SolverValue::Win.to_i32();
    let draw = SolverValue::Draw.to_i32();
    let loss = SolverValue::Loss.to_i32();
    assert!(win > draw && draw > loss);
    assert_eq!(win, i32::MAX);
    assert_eq!(loss, -i32::MAX);
    assert!(ChessPieceValueHeuristic.value(&position(Color::White, start_pieces(), None), 0) < win);
}

#[test]
fn merge_keeps_larger_and_compares_new() {
    assert_eq!(ChessPieceValueHeuristic::merge(3, 7), (7, Ordering::Greater));
    assert_eq!(ChessPieceValueHeuristic::merge(7, 3), (7, Ordering::Less));
    assert_eq!(ChessPieceValueHeuristic::merge(-2, -2), (-2, Ordering::Equal));
    assert_eq!(ChessPieceValueHeuristic::merge(i32::MIN, i32::MAX), (i32::MAX, Ordering::Greater));
}

#[test]
fn solver_merge_follows_outcome_order() {
    assert_eq!(SolverHeuristic::merge(SolverValue::Draw, SolverValue::Win), (SolverValue::Win, Ordering::Greater));
    assert_eq!(SolverHeuristic::merge(SolverValue::Draw, SolverValue::Loss), (SolverValue::Draw, Ordering::Less));
    assert_eq!(SolverHeuristic::merge(SolverValue::Loss, SolverValue::Loss), (SolverValue::Loss, Ordering::Equal));
}

#[test]
fn position_accessors() {
    let pieces = vec![piece(PieceKind::Rook, Color::Black)];
    let pos = position(Color::Black, pieces.clone(), Some(Outcome::Draw));
    assert!(pos.is_done());
    assert_eq!(pos.side_to_move(), Color::Black);
    assert_eq!(pos.outcome(), Some(Outcome::Draw));
    assert_eq!(pos.pieces(), &pieces);
    assert_eq!(Color::White.opponent(), Color::Black);
    assert!(!position(Color::White, vec![], None).is_done());
}
