use chessboard::Pos;
use std::collections::HashSet;

#[test]
fn from_coords_round_trips_every_square() {
    for x in 0..8u8 {
        for y in 0..8u8 {
            let pos = Pos::from_coords(x, y).unwrap();
            assert_eq!(pos.x(), x);
            assert_eq!(pos.y(), y);
            assert_eq!(pos.byte(), (x << 4) | y);
        }
    }
}

#[test]
fn from_coords_byte_is_column_shifted_by_four_or_row() {
    assert_eq!(Pos::from_coords(0, 0).unwrap().byte(), 0x00);
    assert_eq!(Pos::from_coords(0, 1).unwrap().byte(), 0x01);
    assert_eq!(Pos::from_coords(4, 3).unwrap().byte(), 0x43);
    assert_eq!(Pos::from_coords(7, 7).unwrap().byte(), 0x77);
}

#[test]
fn from_coords_refuses_when_both_coordinates_are_out_of_range() {
    assert_eq!(Pos::from_coords(8, 8), None);
    assert_eq!(Pos::from_coords(255, 255), None);
    assert_eq!(Pos::from_coords(16, 9), None);
}

// Both coordinates have to be in range: one good coordinate does not make up
// for a bad one.
#[test]
fn from_coords_refuses_when_only_one_coordinate_is_in_range() {
    assert_eq!(Pos::from_coords(8, 0), None);
    assert_eq!(Pos::from_coords(0, 8), None);
    assert_eq!(Pos::from_coords(3, 200), None);
    assert_eq!(Pos::from_coords(200, 3), None);
    for good in 0..8u8 {
        for bad in 8..=255u8 {
            assert_eq!(Pos::from_coords(good, bad), None);
            assert_eq!(Pos::from_coords(bad, good), None);
        }
    }
}

#[test]
fn from_raw_coords_agrees_with_from_coords_in_range() {
    for x in 0..8u8 {
        for y in 0..8u8 {
            assert_eq!(Some(Pos::from_raw_coords(x, y)), Pos::from_coords(x, y));
        }
    }
}

#[test]
fn from_raw_coords_keeps_three_bits_of_each_coordinate() {
    let pos = Pos::from_raw_coords(9, 3);
    assert_eq!((pos.x(), pos.y()), (1, 3));
    let pos = Pos::from_raw_coords(2, 12);
    assert_eq!((pos.x(), pos.y()), (2, 4));
    let pos = Pos::from_raw_coords(255, 255);
    assert_eq!((pos.x(), pos.y()), (7, 7));
    assert_eq!(pos.byte(), 0x77);
    for x in 0..=255u8 {
        for y in 0..=255u8 {
            let pos = Pos::from_raw_coords(x, y);
            assert_eq!(pos.x(), x % 8);
            assert_eq!(pos.y(), y % 8);
        }
    }
}

#[test]
fn from_an_maps_files_to_columns_and_ranks_to_rows() {
    let files = ['a', 'b', 'c', 'd', 'e', 'f', 'g', 'h'];
    for (x, file) in files.iter().enumerate() {
        for rank in 1..=8u8 {
            let expected = Pos::from_coords(x as u8, rank - 1);
            assert!(expected.is_some());
            assert_eq!(Pos::from_an(*file, rank), expected);
            assert_eq!(Pos::from_an(file.to_ascii_uppercase(), rank), expected);
        }
    }
}

#[test]
fn from_an_reads_e4() {
    let pos = Pos::from_an('e', 4).unwrap();
    assert_eq!(pos.x(), 4);
    assert_eq!(pos.y(), 3);
    let pos = Pos::from_an('E', 4).unwrap();
    assert_eq!((pos.x(), pos.y()), (4, 3));
}

// Ranks 1 to 8 are the ranks of the board; they are accepted, and nothing
// else is.
#[test]
fn from_an_accepts_ranks_one_to_eight_only() {
    for rank in 1..=8u8 {
        assert!(Pos::from_an('a', rank).is_some());
        assert!(Pos::from_an('h', rank).is_some());
    }
    assert_eq!(Pos::from_an('a', 0), None);
    for rank in 9..=255u8 {
        assert_eq!(Pos::from_an('a', rank), None);
    }
}

#[test]
fn from_an_refuses_other_files() {
    for file in ['i', 'I', 'z', '`', '@', '1', ' ', '\u{e9}', '\u{430}'] {
        for rank in 0..=9u8 {
            assert_eq!(Pos::from_an(file, rank), None);
        }
    }
}

#[test]
fn from_an_string_reads_e4() {
    let pos = Pos::from_an_string("e4").unwrap();
    assert_eq!(pos.x(), 4);
    assert_eq!(pos.y(), 3);
    assert_eq!(Some(pos), Pos::from_coords(4, 3));
}

#[test]
fn from_an_string_refuses_i9_and_e() {
    assert_eq!(Pos::from_an_string("i9"), None);
    assert_eq!(Pos::from_an_string("e"), None);
}

#[test]
fn from_an_string_reads_every_square() {
    let files = ["a", "b", "c", "d", "e", "f", "g", "h"];
    let ranks = ["1", "2", "3", "4", "5", "6", "7", "8"];
    for (x, file) in files.iter().enumerate() {
        for (y, rank) in ranks.iter().enumerate() {
            let lower = format!("{}{}", file, rank);
            let upper = lower.to_uppercase();
            let expected = Pos::from_coords(x as u8, y as u8);
            assert!(expected.is_some());
            assert_eq!(Pos::from_an_string(&lower), expected);
            assert_eq!(Pos::from_an_string(&upper), expected);
        }
    }
}

#[test]
fn from_an_string_wants_exactly_two_characters() {
    assert_eq!(Pos::from_an_string(""), None);
    assert_eq!(Pos::from_an_string("e"), None);
    assert_eq!(Pos::from_an_string("4"), None);
    assert_eq!(Pos::from_an_string("e44"), None);
    assert_eq!(Pos::from_an_string("e4 "), None);
    assert_eq!(Pos::from_an_string(" e4"), None);
    assert_eq!(Pos::from_an_string("e4e4"), None);
}

#[test]
fn from_an_string_refuses_bad_files_and_ranks() {
    assert_eq!(Pos::from_an_string("e0"), None);
    assert_eq!(Pos::from_an_string("e9"), None);
    assert_eq!(Pos::from_an_string("i4"), None);
    assert_eq!(Pos::from_an_string("4e"), None);
    assert_eq!(Pos::from_an_string("ee"), None);
    assert_eq!(Pos::from_an_string("44"), None);
    assert_eq!(Pos::from_an_string("e-"), None);
    assert_eq!(Pos::from_an_string("ea"), None);
}

#[test]
fn from_an_string_counts_characters_not_bytes() {
    // Two characters, three bytes: the file is no letter from a to h.
    assert_eq!(Pos::from_an_string("\u{e9}4"), None);
    // Two characters, the second a digit of another script.
    assert_eq!(Pos::from_an_string("e\u{664}"), None);
    // One character, two bytes.
    assert_eq!(Pos::from_an_string("\u{e9}"), None);
}

#[test]
fn squares_are_distinct_keys() {
    let mut seen = HashSet::new();
    for x in 0..8u8 {
        for y in 0..8u8 {
            assert!(seen.insert(Pos::from_coords(x, y).unwrap()));
        }
    }
    assert_eq!(seen.len(), 64);
    assert!(seen.contains(&Pos::from_an_string("e4").unwrap()));
}
