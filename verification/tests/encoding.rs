use chessboard::{Chessman, DoublePiece, Piece, Player};
use std::mem::size_of;

const PLAYERS: [Player; 2] = [Player::White, Player::Black];

const CHESSMEN: [Chessman; 6] = [
    Chessman::Pawn,
    Chessman::Bishop,
    Chessman::Knight,
    Chessman::Rook,
    Chessman::King,
    Chessman::Queen,
];

fn all_pieces() -> Vec<Piece> {
    let mut pieces = Vec::new();
    for player in PLAYERS {
        for chessman in CHESSMEN {
            pieces.push(Piece::new(player, chessman));
        }
    }
    pieces
}

#[test]
fn test_player_repr() {
    assert!(size_of::<Player>() == 1);
    let p = Player::White;
    let px: u8 = p.tag();
    assert!(px == 0u8);

    let p = Player::Black;
    let px: u8 = p.tag();
    assert!(px == 1u8);
}

#[test]
fn test_chessman_repr() {
    assert!(size_of::<Chessman>() == 1);

    let c = Chessman::Pawn;
    let cx: u8 = c.tag();
    assert!(cx == 1u8);
}

#[test]
fn test_piece_repr() {
    assert!(size_of::<Piece>() == 1);
    assert!(size_of::<DoublePiece>() == 1);

    assert!(Piece::new(Player::White, Chessman::Pawn).info() == (Player::White, Chessman::Pawn));
    assert!(Piece::new(Player::Black, Chessman::King).info() == (Player::Black, Chessman::King));
    assert!(Piece::new(Player::Black, Chessman::Queen).info() == (Player::Black, Chessman::Queen));
}

#[test]
fn test_double_piece_repr() {
    let v1 = DoublePiece::empty();
    assert!(v1.byte() == 0);
    assert!(v1.top().is_none());
    assert!(v1.bottom().is_none());

    let top = Piece::new(Player::White, Chessman::Pawn);
    let bottom = Piece::new(Player::Black, Chessman::King);

    let v2 = DoublePiece::new(Some(top), Some(bottom));

    assert!(v2.bottom() == Some(bottom));
    assert!(v2.top() == Some(top));

    assert!(v2.access(1) == Some(top));
    assert!(v2.access(0) == Some(bottom));
}

#[test]
fn player_tags_round_trip() {
    for player in PLAYERS {
        assert_eq!(Player::from_tag(player.tag()), Some(player));
    }
    assert_eq!(Player::from_tag(0), Some(Player::White));
    assert_eq!(Player::from_tag(1), Some(Player::Black));
}

#[test]
fn player_tags_above_one_decode_to_nothing() {
    for tag in 2..=255u8 {
        assert_eq!(Player::from_tag(tag), None);
    }
}

#[test]
fn chessman_tags_round_trip() {
    for chessman in CHESSMEN {
        assert_eq!(Chessman::from_tag(chessman.tag()), Some(chessman));
    }
}

#[test]
fn chessman_tags_are_one_to_six() {
    assert_eq!(Chessman::Pawn.tag(), 1);
    assert_eq!(Chessman::Bishop.tag(), 2);
    assert_eq!(Chessman::Knight.tag(), 3);
    assert_eq!(Chessman::Rook.tag(), 4);
    assert_eq!(Chessman::King.tag(), 5);
    assert_eq!(Chessman::Queen.tag(), 6);
}

#[test]
fn chessman_tags_outside_one_to_six_decode_to_nothing() {
    assert_eq!(Chessman::from_tag(0), None);
    for tag in 7..=255u8 {
        assert_eq!(Chessman::from_tag(tag), None);
    }
}

#[test]
fn piece_decodes_to_what_it_was_built_from() {
    for player in PLAYERS {
        for chessman in CHESSMEN {
            let piece = Piece::new(player, chessman);
            assert_eq!(piece.info(), (player, chessman));
            assert_eq!(piece.player(), player);
            assert_eq!(piece.chessman(), chessman);
        }
    }
}

#[test]
fn piece_byte_is_player_shifted_by_three_or_chessman() {
    assert_eq!(Piece::new(Player::White, Chessman::Pawn).byte(), 0b0001);
    assert_eq!(Piece::new(Player::White, Chessman::Queen).byte(), 0b0110);
    assert_eq!(Piece::new(Player::Black, Chessman::Pawn).byte(), 0b1001);
    assert_eq!(Piece::new(Player::Black, Chessman::King).byte(), 0b1101);
    assert_eq!(Piece::new(Player::Black, Chessman::Queen).byte(), 0b1110);
    for player in PLAYERS {
        for chessman in CHESSMEN {
            let byte = Piece::new(player, chessman).byte();
            assert_eq!(byte, (player.tag() << 3) | chessman.tag());
        }
    }
}

#[test]
fn piece_byte_is_never_zero_and_fits_a_nibble() {
    for piece in all_pieces() {
        assert_ne!(piece.byte(), 0);
        assert!(piece.byte() < 16);
    }
}

#[test]
fn distinct_pieces_have_distinct_bytes() {
    let pieces = all_pieces();
    for (i, p) in pieces.iter().enumerate() {
        for (j, q) in pieces.iter().enumerate() {
            assert_eq!(i == j, p.byte() == q.byte());
            assert_eq!(i == j, p == q);
        }
    }
}

#[test]
fn double_piece_of_nothing_is_empty() {
    let pair = DoublePiece::new(None, None);
    assert_eq!(pair.top(), None);
    assert_eq!(pair.bottom(), None);
    assert_eq!(pair.access(1), None);
    assert_eq!(pair.access(0), None);
    assert_eq!(pair.byte(), 0);
    assert_eq!(pair, DoublePiece::empty());
}

#[test]
fn double_piece_gives_back_both_halves() {
    for top in all_pieces() {
        for bottom in all_pieces() {
            let pair = DoublePiece::new(Some(top), Some(bottom));
            assert_eq!(pair.access(1), Some(top));
            assert_eq!(pair.access(0), Some(bottom));
            assert_eq!(pair.top(), Some(top));
            assert_eq!(pair.bottom(), Some(bottom));
        }
    }
}

#[test]
fn double_piece_with_one_half_missing() {
    for piece in all_pieces() {
        let upper = DoublePiece::new(Some(piece), None);
        assert_eq!(upper.access(1), Some(piece));
        assert_eq!(upper.access(0), None);
        assert_eq!(upper.byte(), piece.byte() << 4);

        let lower = DoublePiece::new(None, Some(piece));
        assert_eq!(lower.access(1), None);
        assert_eq!(lower.access(0), Some(piece));
        assert_eq!(lower.byte(), piece.byte());
    }
}

#[test]
fn double_piece_byte_is_top_nibble_then_bottom_nibble() {
    let top = Piece::new(Player::White, Chessman::Pawn);
    let bottom = Piece::new(Player::Black, Chessman::King);
    assert_eq!(DoublePiece::new(Some(top), Some(bottom)).byte(), 0x1d);
    assert_eq!(DoublePiece::new(Some(bottom), Some(top)).byte(), 0xd1);
    for top in all_pieces() {
        for bottom in all_pieces() {
            let pair = DoublePiece::new(Some(top), Some(bottom));
            assert_eq!(pair.byte(), (top.byte() << 4) | bottom.byte());
        }
    }
}
