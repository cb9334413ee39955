use doodle_game::chess::{ChessMove, PieceType, Square};

#[test]
fn squares_from_text() {
    assert_eq!(Square::from_algebraic("a1"), Some(Square::new(0, 0)));
    assert_eq!(Square::from_algebraic("e4"), Some(Square { file: 4, rank: 3 }));
    assert_eq!(Square::from_algebraic("h8"), Some(Square { file: 7, rank: 7 }));
    for bad in ["", "e", "e44", "i1", "a9", "a0", "E4", "4e", "`1", "é1", "eé", "ab"] {
        assert_eq!(Square::from_algebraic(bad), None, "{:?}", bad);
    }
}

#[test]
fn squares_to_text() {
    assert_eq!(Square::new(0, 0).to_algebraic(), "a1");
    assert_eq!(Square::new(4, 3).to_algebraic(), "e4");
    assert_eq!(Square::new(7, 7).to_algebraic(), "h8");
    assert_eq!(Square::new(8, 9).to_algebraic(), "i10");
}

#[test]
fn squares_and_their_numbers() {
    assert_eq!(Square::new(0, 0).to_index(), 0);
    assert_eq!(Square::new(4, 3).to_index(), 28);
    assert_eq!(Square::new(7, 7).to_index(), 63);
    assert_eq!(Square::from_index(28), Square { file: 4, rank: 3 });
    assert_eq!(Square::from_index(255), Square { file: 7, rank: 31 });
    for index in 0..64u8 {
        let square = Square::from_index(index);
        assert_eq!(square.to_index(), index);
        assert_eq!(Square::from_algebraic(&square.to_algebraic()), Some(square));
    }
}

#[test]
fn moves_from_text() {
    let e2e4 = ChessMove { from: Square::new(4, 1), to: Square::new(4, 3), promotion: None };
    assert_eq!(ChessMove::from_uci("e2e4"), Some(e2e4));
    let promote = |piece| Some(ChessMove { from: Square::new(4, 6), to: Square::new(4, 7), promotion: piece });
    assert_eq!(ChessMove::from_uci("e7e8q"), promote(Some(PieceType::Queen)));
    assert_eq!(ChessMove::from_uci("e7e8r"), promote(Some(PieceType::Rook)));
    assert_eq!(ChessMove::from_uci("e7e8b"), promote(Some(PieceType::Bishop)));
    assert_eq!(ChessMove::from_uci("e7e8n"), promote(Some(PieceType::Knight)));
    assert_eq!(ChessMove::from_uci("e7e8k"), promote(None));
    assert_eq!(ChessMove::from_uci("e7e8Q"), promote(None));
    assert_eq!(ChessMove::from_uci("e7e8qxyz"), promote(Some(PieceType::Queen)));
    for bad in ["", "e2", "e2e", "e2e9", "x2e4", "e2-e4", "éée4"] {
        assert_eq!(ChessMove::from_uci(bad), None, "{:?}", bad);
    }
}

#[test]
fn moves_to_text() {
    let mut m = ChessMove { from: Square::new(4, 6), to: Square::new(4, 7), promotion: None };
    assert_eq!(m.to_uci(), "e7e8");
    for (piece, text) in [
        (PieceType::Queen, "e7e8q"),
        (PieceType::Rook, "e7e8r"),
        (PieceType::Bishop, "e7e8b"),
        (PieceType::Knight, "e7e8n"),
        (PieceType::Pawn, "e7e8q"),
        (PieceType::King, "e7e8q"),
    ] {
        m.promotion = Some(piece);
        assert_eq!(m.to_uci(), text);
    }
    let back = ChessMove::from_uci("g1f3").unwrap();
    assert_eq!(back.to_uci(), "g1f3");
}
