//! Two optional pieces packed into one byte.

use crate::piece::{is_nibble, Piece};
use vstd::prelude::*;

verus! {

/// The byte that holds two nibbles: the top one in bits 4 and up, the bottom
/// one in bits 0 to 3.
pub open spec fn double_byte(top: u8, bottom: u8) -> u8 {
    (top << 4) | bottom
}

/// Two optional pieces, a top one and a bottom one, held as one byte. Each
/// takes a nibble, and a nibble of zero holds no piece.
#[derive(Clone, Copy, Debug, PartialEq, Eq, Hash, Structural)]
pub struct DoublePiece {
    byte: u8,
}

impl View for DoublePiece {
    type V = (Option<Piece>, Option<Piece>);

    /// The top and the bottom piece that the byte decodes to.
    open spec fn view(&self) -> (Option<Piece>, Option<Piece>) {
        (self.spec_top(), self.spec_bottom())
    }
}

impl DoublePiece {
    /// The byte that holds the pair.
    pub closed spec fn spec_byte(self) -> u8 {
        self.byte
    }

    /// The top piece: what the high nibble holds.
    pub open spec fn spec_top(self) -> Option<Piece> {
        Piece::spec_from_nibble(self.spec_byte() >> 4)
    }

    /// The bottom piece: what the low nibble holds.
    pub open spec fn spec_bottom(self) -> Option<Piece> {
        Piece::spec_from_nibble(self.spec_byte() & 0xf)
    }

    /// The half that a shift selects: the top one for 1, the bottom one for 0.
    pub open spec fn spec_access(self, shift: u8) -> Option<Piece> {
        if shift == 0 {
            self.spec_bottom()
        } else {
            self.spec_top()
        }
    }

    /// A pair is well formed when each nibble is zero or a piece's byte.
    /// Every pair that executable code holds is well formed.
    #[verifier::type_invariant]
    pub open spec fn wf(self) -> bool {
        is_nibble(self.spec_byte() >> 4) && is_nibble(self.spec_byte() & 0xf)
    }

    /// The pair that `new` builds.
    pub closed spec fn spec_new(top: Option<Piece>, bottom: Option<Piece>) -> DoublePiece {
        DoublePiece { byte: double_byte(Piece::spec_nibble(top), Piece::spec_nibble(bottom)) }
    }

    /// Packs a top and a bottom piece, either of which may be missing.
    #[verifier::when_used_as_spec(spec_new)]
    pub fn new(top: Option<Piece>, bottom: Option<Piece>) -> (d: DoublePiece)
        ensures
            d == DoublePiece::spec_new(top, bottom),
            d.spec_byte() == double_byte(Piece::spec_nibble(top), Piece::spec_nibble(bottom)),
            d@ == (top, bottom),
            d.wf(),
    {
        let v1: u8 = Piece::nibble(top);
        let v2: u8 = Piece::nibble(bottom);
        proof {
            lemma_nibbles_pack(v1, v2);
        }
        DoublePiece { byte: (v1 << 4) | v2 }
    }

    /// The pair that holds no piece: the byte zero.
    pub fn empty() -> (d: DoublePiece)
        ensures
            d == DoublePiece::spec_new(None, None),
            d.spec_byte() == 0,
            d@ == (None::<Piece>, None::<Piece>),
            d.wf(),
    {
        proof {
            lemma_nibbles_pack(0, 0);
            Piece::lemma_from_nibble(0);
        }
        DoublePiece { byte: 0 }
    }

    /// The half that `shift` selects: the top piece for 1, the bottom piece
    /// for 0.
    pub fn access(self, shift: u8) -> (r: Option<Piece>)
        requires
            shift <= 1,
        ensures
            r == self.spec_access(shift),
            shift == 1 ==> r == self@.0,
            shift == 0 ==> r == self@.1,
            r matches Some(p) ==> p.wf(),
    {
        proof {
            use_type_invariant(self);
            lemma_nibbles_select(self.byte);
            Piece::lemma_from_nibble(self.byte >> 4);
            Piece::lemma_from_nibble(self.byte & 0xf);
        }
        Piece::from_nibble((self.byte >> (4 * shift)) & 0xf)
    }

    /// The top piece.
    pub fn top(self) -> (r: Option<Piece>)
        ensures
            r == self@.0,
            r matches Some(p) ==> p.wf(),
    {
        proof {
            use_type_invariant(self);
            Piece::lemma_from_nibble(self.byte >> 4);
        }
        Piece::from_nibble(self.byte >> 4)
    }

    /// The bottom piece.
    pub fn bottom(self) -> (r: Option<Piece>)
        ensures
            r == self@.1,
            r matches Some(p) ==> p.wf(),
    {
        proof {
            use_type_invariant(self);
            Piece::lemma_from_nibble(self.byte & 0xf);
        }
        Piece::from_nibble(self.byte & 0xf)
    }

    /// The byte that holds the pair: the top nibble shifted left by four,
    /// or-ed with the bottom nibble.
    pub fn byte(self) -> (b: u8)
        ensures
            b == self.spec_byte(),
            b == double_byte(Piece::spec_nibble(self@.0), Piece::spec_nibble(self@.1)),
            self.wf(),
    {
        proof {
            use_type_invariant(self);
            lemma_nibbles_unpack(self.byte);
            Piece::lemma_from_nibble(self.byte >> 4);
            Piece::lemma_from_nibble(self.byte & 0xf);
        }
        self.byte
    }

    /// A pair packed from two optional well-formed pieces is well formed and
    /// decodes to those two again: the shift 1 selects the top one, the
    /// shift 0 the bottom one. In particular the pair packed from no piece at
    /// all is the byte zero and holds none in either half.
    pub proof fn lemma_new(top: Option<Piece>, bottom: Option<Piece>)
        requires
            top matches Some(p) ==> p.wf(),
            bottom matches Some(p) ==> p.wf(),
        ensures
            DoublePiece::spec_new(top, bottom)@ == (top, bottom),
            DoublePiece::spec_new(top, bottom).spec_access(1) == top,
            DoublePiece::spec_new(top, bottom).spec_access(0) == bottom,
            DoublePiece::spec_new(top, bottom).spec_byte() == double_byte(
                Piece::spec_nibble(top),
                Piece::spec_nibble(bottom),
            ),
            DoublePiece::spec_new(top, bottom).wf(),
            top is None && bottom is None ==> DoublePiece::spec_new(top, bottom).spec_byte() == 0,
    {
        Piece::lemma_nibble(top);
        Piece::lemma_nibble(bottom);
        lemma_nibbles_pack(Piece::spec_nibble(top), Piece::spec_nibble(bottom));
    }

    /// Two pairs held as the same byte are the same pair.
    pub proof fn lemma_same_byte(d: DoublePiece, e: DoublePiece)
        requires
            d.spec_byte() == e.spec_byte(),
        ensures
            d == e,
    {
    }
}

/// Packing two nibbles into a byte loses neither.
proof fn lemma_nibbles_pack(top: u8, bottom: u8)
    by (bit_vector)
    requires
        top < 16,
        bottom < 16,
    ensures
        ((top << 4) | bottom) >> 4 == top,
        ((top << 4) | bottom) & 0xf == bottom,
        top == 0 && bottom == 0 ==> (top << 4) | bottom == 0,
{
}

/// Shifting a byte right by four and masking leaves its high nibble;
/// shifting by nothing and masking leaves its low nibble.
proof fn lemma_nibbles_select(b: u8)
    by (bit_vector)
    ensures
        (b >> 4u8) & 0xf == b >> 4,
        (b >> 0u8) & 0xf == b & 0xf,
{
}

/// A byte is put together again from its two nibbles.
proof fn lemma_nibbles_unpack(b: u8)
    by (bit_vector)
    ensures
        ((b >> 4) << 4) | (b & 0xf) == b,
{
}

} // verus!
