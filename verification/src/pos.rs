//! Squares of the board, each held as one byte.

use vstd::prelude::*;

verus! {

/// The byte that holds a square: the column in bits 4 and up, the row in
/// bits 0 to 3.
pub open spec fn pos_byte(x: u8, y: u8) -> u8 {
    (x << 4) | y
}

/// The column that a file letter names: `a` or `A` is 0, up to `h` or `H`,
/// which is 7. No other character names a file.
pub open spec fn file_index(file: char) -> Option<u8> {
    if file == 'a' || file == 'A' {
        Some(0u8)
    } else if file == 'b' || file == 'B' {
        Some(1u8)
    } else if file == 'c' || file == 'C' {
        Some(2u8)
    } else if file == 'd' || file == 'D' {
        Some(3u8)
    } else if file == 'e' || file == 'E' {
        Some(4u8)
    } else if file == 'f' || file == 'F' {
        Some(5u8)
    } else if file == 'g' || file == 'G' {
        Some(6u8)
    } else if file == 'h' || file == 'H' {
        Some(7u8)
    } else {
        None
    }
}

/// The value of a decimal digit; no other character has one.
pub open spec fn digit_value(c: char) -> Option<u8> {
    if '0' <= c <= '9' {
        Some((c as u8 - '0' as u8) as u8)
    } else {
        None
    }
}

/// A square of the board: a column and a row, both from 0 to 7.
#[derive(Clone, Copy, Debug, PartialEq, Eq, Hash, Structural)]
pub struct Pos {
    byte: u8,
}

impl View for Pos {
    type V = (int, int);

    /// The column and the row that the byte decodes to.
    open spec fn view(&self) -> (int, int) {
        (self.spec_x() as int, self.spec_y() as int)
    }
}

impl Pos {
    /// The byte that holds the square.
    pub closed spec fn spec_byte(self) -> u8 {
        self.byte
    }

    /// The column: bits 4 and up of the byte.
    pub open spec fn spec_x(self) -> u8 {
        self.spec_byte() >> 4
    }

    /// The row: bits 0 to 3 of the byte.
    pub open spec fn spec_y(self) -> u8 {
        self.spec_byte() & 0xf
    }

    /// A square is well formed when its column and its row are both below 8.
    /// Every square that executable code holds is well formed.
    #[verifier::type_invariant]
    pub open spec fn wf(self) -> bool {
        self.spec_x() < 8 && self.spec_y() < 8
    }

    /// The square that `from_raw_coords` builds.
    pub closed spec fn spec_from_raw_coords(x: u8, y: u8) -> Pos {
        Pos { byte: pos_byte(x & 0b111, y & 0b111) }
    }

    /// The square that `from_coords` builds, if it builds one.
    pub open spec fn spec_from_coords(x: u8, y: u8) -> Option<Pos> {
        if x < 8 && y < 8 {
            Some(Pos::spec_from_raw_coords(x, y))
        } else {
            None
        }
    }

    /// The square that `from_an` builds, if it builds one.
    pub open spec fn spec_from_an(file: char, rank: u8) -> Option<Pos> {
        match file_index(file) {
            Some(x) => if 1 <= rank <= 8 {
                Pos::spec_from_coords(x, (rank - 1) as u8)
            } else {
                None
            },
            None => None,
        }
    }

    /// The square that `from_an_string` builds, if it builds one.
    pub open spec fn spec_from_an_string(s: Seq<char>) -> Option<Pos> {
        if s.len() == 2 {
            match digit_value(s[1]) {
                Some(rank) => Pos::spec_from_an(s[0], rank),
                None => None,
            }
        } else {
            None
        }
    }

    /// The square in column `x` and row `y`, if both are below 8. A
    /// coordinate of 8 or more is refused, whatever the other one is.
    #[verifier::when_used_as_spec(spec_from_coords)]
    pub fn from_coords(x: u8, y: u8) -> (r: Option<Pos>)
        ensures
            r == Pos::spec_from_coords(x, y),
            r is Some <==> x < 8 && y < 8,
            r matches Some(p) ==> p@ == (x as int, y as int) && p.spec_byte() == pos_byte(x, y)
                && p.wf(),
    {
        if x < 8 && y < 8 {
            proof {
                lemma_coords_pack(x, y);
            }
            Some(Pos { byte: (x << 4) | y })
        } else {
            None
        }
    }

    /// The square in column `x` and row `y`, each cut down to its three low
    /// bits. Nothing is checked: a coordinate of 8 or more silently wraps
    /// round, so the caller has to know that both are below 8.
    #[verifier::when_used_as_spec(spec_from_raw_coords)]
    pub fn from_raw_coords(x: u8, y: u8) -> (p: Pos)
        ensures
            p == Pos::spec_from_raw_coords(x, y),
            p.spec_byte() == pos_byte(x & 0b111, y & 0b111),
            p@ == (x as int % 8, y as int % 8),
            x < 8 && y < 8 ==> Some(p) == Pos::spec_from_coords(x, y),
            p.wf(),
    {
        let mx: u8 = x & 0b111;
        let my: u8 = y & 0b111;
        proof {
            lemma_coords_mask(x, y);
            lemma_coords_pack(mx, my);
        }
        Pos { byte: (mx << 4) | my }
    }

    /// The square that a file letter and a rank name: the file `a` to `h`, in
    /// either case, gives the column 0 to 7, and the rank 1 to 8 gives the
    /// row 0 to 7. Any other file or rank names no square.
    #[verifier::when_used_as_spec(spec_from_an)]
    pub fn from_an(file: char, rank: u8) -> (r: Option<Pos>)
        ensures
            r == Pos::spec_from_an(file, rank),
            r is Some <==> file_index(file) is Some && 1 <= rank <= 8,
            r matches Some(p) ==> file_index(file) matches Some(x) && p@ == (x as int, rank - 1)
                && p.wf(),
    {
        if rank == 0 || rank > 8 {
            return None;
        }
        let y: u8 = rank - 1;
        let x: u8 = match file {
            'a' | 'A' => 0,
            'b' | 'B' => 1,
            'c' | 'C' => 2,
            'd' | 'D' => 3,
            'e' | 'E' => 4,
            'f' | 'F' => 5,
            'g' | 'G' => 6,
            'h' | 'H' => 7,
            _ => {
                return None;
            },
        };
        Pos::from_coords(x, y)
    }

    /// The square that a string of exactly two characters names, a file
    /// letter and then a rank digit, as `from_an` reads them. A string of any
    /// other length, or one whose second character is no digit, names no
    /// square.
    pub fn from_an_string(s: &str) -> (r: Option<Pos>)
        ensures
            r == Pos::spec_from_an_string(s@),
            r is Some <==> s@.len() == 2 && file_index(s@[0]) is Some && '1' <= s@[1] <= '8',
            r matches Some(p) ==> file_index(s@[0]) matches Some(x) && p@ == (
                x as int,
                s@[1] as int - '1' as int,
            ) && p.wf(),
    {
        let mut chrs = s.chars();
        let file: char = match chrs.next() {
            Some(c) => c,
            None => {
                return None;
            },
        };
        let rank: u8 = match chrs.next() {
            Some(c) => match digit_of(c) {
                Some(d) => d,
                None => {
                    return None;
                },
            },
            None => {
                return None;
            },
        };
        if chrs.next().is_some() {
            None
        } else {
            Pos::from_an(file, rank)
        }
    }

    /// The column of the square, from 0 to 7.
    pub fn x(self) -> (x: u8)
        ensures
            x == self.spec_x(),
            x as int == self@.0,
            x < 8,
    {
        proof {
            use_type_invariant(self);
        }
        self.byte >> 4
    }

    /// The row of the square, from 0 to 7.
    pub fn y(self) -> (y: u8)
        ensures
            y == self.spec_y(),
            y as int == self@.1,
            y < 8,
    {
        proof {
            use_type_invariant(self);
        }
        self.byte & 0xf
    }

    /// The byte that holds the square: the column shifted left by four,
    /// or-ed with the row.
    pub fn byte(self) -> (b: u8)
        ensures
            b == self.spec_byte(),
            b == pos_byte(self.spec_x(), self.spec_y()),
            self.wf(),
    {
        proof {
            use_type_invariant(self);
            lemma_coords_unpack(self.byte);
        }
        self.byte
    }

    /// A square built from a column and a row below 8 decodes to that column
    /// and that row again.
    pub proof fn lemma_from_coords(x: u8, y: u8)
        requires
            x < 8,
            y < 8,
        ensures
            Pos::spec_from_coords(x, y) matches Some(p) && p@ == (x as int, y as int)
                && p.spec_byte() == pos_byte(x, y) && p.wf(),
    {
        lemma_coords_pack(x, y);
    }

    /// A square built without a check decodes to the column and the row that
    /// it was built from, each taken modulo 8, and is well formed.
    pub proof fn lemma_from_raw_coords(x: u8, y: u8)
        ensures
            Pos::spec_from_raw_coords(x, y)@ == (x as int % 8, y as int % 8),
            Pos::spec_from_raw_coords(x, y).spec_byte() == pos_byte(x & 0b111, y & 0b111),
            Pos::spec_from_raw_coords(x, y).wf(),
    {
        lemma_coords_mask(x, y);
        lemma_coords_pack(x & 0b111, y & 0b111);
    }

    /// Two squares with the same column and the same row are the same square.
    pub proof fn lemma_same_coords(p: Pos, q: Pos)
        requires
            p@ == q@,
        ensures
            p == q,
    {
        lemma_coords_unpack(p.byte);
        lemma_coords_unpack(q.byte);
    }
}

/// The value of a decimal digit, if the character is one.
fn digit_of(c: char) -> (d: Option<u8>)
    ensures
        d == digit_value(c),
        d matches Some(v) ==> v <= 9,
{
    if '0' <= c && c <= '9' {
        Some(c as u8 - '0' as u8)
    } else {
        None
    }
}

/// Packing a column and a row below 8 into a byte loses neither.
proof fn lemma_coords_pack(x: u8, y: u8)
    by (bit_vector)
    requires
        x < 8,
        y < 8,
    ensures
        ((x << 4) | y) >> 4 == x,
        ((x << 4) | y) & 0xf == y,
        x & 0b111 == x,
        y & 0b111 == y,
{
}

/// A byte is put together again from its bits 4 and up and its bits 0 to 3.
proof fn lemma_coords_unpack(b: u8)
    by (bit_vector)
    ensures
        ((b >> 4) << 4) | (b & 0xf) == b,
{
}

/// The three low bits of a byte are its remainder by 8.
proof fn lemma_coords_mask(x: u8, y: u8)
    by (bit_vector)
    ensures
        x & 0b111 == x % 8,
        y & 0b111 == y % 8,
{
}

} // verus!
