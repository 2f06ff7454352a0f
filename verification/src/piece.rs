//! Players, chessmen and the one-byte encoding of a piece.

use vstd::prelude::*;

verus! {

/// The side a piece belongs to.
#[derive(Clone, Copy, Debug, PartialEq, Eq, Hash, Structural)]
pub enum Player {
    White,
    Black,
}

/// The kind of a piece, whoever owns it.
#[derive(Clone, Copy, Debug, PartialEq, Eq, Hash, Structural)]
pub enum Chessman {
    Pawn,
    Bishop,
    Knight,
    Rook,
    King,
    Queen,
}

impl Player {
    /// The number that stands for this player in an encoded piece.
    pub open spec fn spec_tag(self) -> u8 {
        match self {
            Player::White => 0,
            Player::Black => 1,
        }
    }

    /// The player that a number stands for, if any.
    pub open spec fn spec_from_tag(tag: u8) -> Option<Player> {
        if tag == 0 {
            Some(Player::White)
        } else if tag == 1 {
            Some(Player::Black)
        } else {
            None
        }
    }

    /// Encodes the player as its tag: 0 for white, 1 for black.
    #[verifier::when_used_as_spec(spec_tag)]
    pub fn tag(self) -> (t: u8)
        ensures
            t == self.spec_tag(),
            t <= 1,
    {
        match self {
            Player::White => 0,
            Player::Black => 1,
        }
    }

    /// Decodes a tag: `Some` exactly for 0 and 1.
    pub fn from_tag(tag: u8) -> (p: Option<Player>)
        ensures
            p == Player::spec_from_tag(tag),
            p is Some <==> tag <= 1,
            p matches Some(q) ==> q.spec_tag() == tag,
    {
        if tag == 0 {
            Some(Player::White)
        } else if tag == 1 {
            Some(Player::Black)
        } else {
            None
        }
    }

    /// Decoding the tag of a player gives that player back.
    pub proof fn lemma_tag_round_trip(p: Player)
        ensures
            Player::spec_from_tag(p.spec_tag()) == Some(p),
    {
    }
}

impl Chessman {
    /// The number that stands for this chessman in an encoded piece. No
    /// chessman has the number 0, which is kept for "no piece".
    pub open spec fn spec_tag(self) -> u8 {
        match self {
            Chessman::Pawn => 1,
            Chessman::Bishop => 2,
            Chessman::Knight => 3,
            Chessman::Rook => 4,
            Chessman::King => 5,
            Chessman::Queen => 6,
        }
    }

    /// The chessman that a number stands for, if any.
    pub open spec fn spec_from_tag(tag: u8) -> Option<Chessman> {
        if tag == 1 {
            Some(Chessman::Pawn)
        } else if tag == 2 {
            Some(Chessman::Bishop)
        } else if tag == 3 {
            Some(Chessman::Knight)
        } else if tag == 4 {
            Some(Chessman::Rook)
        } else if tag == 5 {
            Some(Chessman::King)
        } else if tag == 6 {
            Some(Chessman::Queen)
        } else {
            None
        }
    }

    /// Encodes the chessman as its tag, a number from 1 to 6.
    #[verifier::when_used_as_spec(spec_tag)]
    pub fn tag(self) -> (t: u8)
        ensures
            t == self.spec_tag(),
            1 <= t <= 6,
    {
        match self {
            Chessman::Pawn => 1,
            Chessman::Bishop => 2,
            Chessman::Knight => 3,
            Chessman::Rook => 4,
            Chessman::King => 5,
            Chessman::Queen => 6,
        }
    }

    /// Decodes a tag: `Some` exactly for the numbers 1 to 6.
    pub fn from_tag(tag: u8) -> (c: Option<Chessman>)
        ensures
            c == Chessman::spec_from_tag(tag),
            c is Some <==> 1 <= tag <= 6,
            c matches Some(d) ==> d.spec_tag() == tag,
    {
        match tag {
            1 => Some(Chessman::Pawn),
            2 => Some(Chessman::Bishop),
            3 => Some(Chessman::Knight),
            4 => Some(Chessman::Rook),
            5 => Some(Chessman::King),
            6 => Some(Chessman::Queen),
            _ => None,
        }
    }

    /// Decoding the tag of a chessman gives that chessman back, and no
    /// chessman has the tag 0.
    pub proof fn lemma_tag_round_trip(c: Chessman)
        ensures
            Chessman::spec_from_tag(c.spec_tag()) == Some(c),
            c.spec_tag() != 0,
    {
    }
}

/// The byte that encodes a piece: the player's tag in bit 3, the chessman's
/// tag in bits 0 to 2.
pub open spec fn piece_byte(player: Player, chessman: Chessman) -> u8 {
    (player.spec_tag() << 3) | chessman.spec_tag()
}

/// Whether a byte encodes a piece: bits 3 and up hold a player's tag and bits
/// 0 to 2 a chessman's tag.
pub open spec fn is_piece_byte(b: u8) -> bool {
    Player::spec_from_tag(b >> 3) is Some && Chessman::spec_from_tag(b & 0b111) is Some
}

/// Whether a nibble holds an optional piece: zero for none, else a piece's byte.
pub open spec fn is_nibble(n: u8) -> bool {
    n == 0 || is_piece_byte(n)
}

/// A piece: a player's chessman, held as one byte that is never zero.
#[derive(Clone, Copy, Debug, PartialEq, Eq, Structural)]
pub struct Piece {
    byte: u8,
}

impl View for Piece {
    type V = (Player, Chessman);

    /// The player and the chessman that the byte decodes to.
    open spec fn view(&self) -> (Player, Chessman) {
        (self.spec_player(), self.spec_chessman())
    }
}

impl Piece {
    /// The byte that holds the piece.
    pub closed spec fn spec_byte(self) -> u8 {
        self.byte
    }

    /// The piece that `new` builds.
    pub closed spec fn spec_new(player: Player, chessman: Chessman) -> Piece {
        Piece { byte: piece_byte(player, chessman) }
    }

    /// The optional piece that a nibble holds: none for zero, else the piece
    /// held as that byte.
    pub closed spec fn spec_from_nibble(n: u8) -> Option<Piece> {
        if n == 0 {
            None
        } else {
            Some(Piece { byte: n })
        }
    }

    /// The nibble that holds an optional piece: zero for none.
    pub open spec fn spec_nibble(p: Option<Piece>) -> u8 {
        match p {
            Some(q) => q.spec_byte(),
            None => 0,
        }
    }

    /// A piece is well formed when its byte encodes a player and a chessman.
    /// Every piece that executable code holds is well formed.
    #[verifier::type_invariant]
    pub open spec fn wf(self) -> bool {
        is_piece_byte(self.spec_byte())
    }

    /// The player in bits 3 and up of the byte.
    pub open spec fn spec_player(self) -> Player {
        match Player::spec_from_tag(self.spec_byte() >> 3) {
            Some(p) => p,
            None => Player::White,
        }
    }

    /// The chessman in bits 0 to 2 of the byte.
    pub open spec fn spec_chessman(self) -> Chessman {
        match Chessman::spec_from_tag(self.spec_byte() & 0b111) {
            Some(c) => c,
            None => Chessman::Pawn,
        }
    }

    /// Builds the piece of a player and a chessman.
    #[verifier::when_used_as_spec(spec_new)]
    pub fn new(player: Player, chessman: Chessman) -> (p: Piece)
        ensures
            p == Piece::spec_new(player, chessman),
            p.spec_byte() == piece_byte(player, chessman),
            p@ == (player, chessman),
            p.wf(),
    {
        let pv: u8 = player.tag();
        let cv: u8 = chessman.tag();
        proof {
            lemma_tags_pack(pv, cv);
        }
        Piece { byte: (pv << 3) | cv }
    }

    /// The byte that holds the piece. It is never zero and fits in a nibble.
    pub fn byte(self) -> (b: u8)
        ensures
            b == self.spec_byte(),
            b == piece_byte(self@.0, self@.1),
            0 < b < 16,
            self.wf(),
    {
        proof {
            use_type_invariant(self);
            Piece::lemma_wf(self);
        }
        self.byte
    }

    /// The player that owns the piece.
    pub fn player(self) -> (r: Player)
        ensures
            r == self@.0,
            self == Piece::spec_new(r, self@.1),
            forall|player: Player, chessman: Chessman|
                self == #[trigger] Piece::spec_new(player, chessman) ==> r == player,
    {
        proof {
            use_type_invariant(self);
            Piece::lemma_wf(self);
            Piece::lemma_new_decodes();
        }
        let tag: u8 = self.byte >> 3;
        if tag == 0 {
            Player::White
        } else {
            Player::Black
        }
    }

    /// The kind of the piece.
    pub fn chessman(self) -> (r: Chessman)
        ensures
            r == self@.1,
            self == Piece::spec_new(self@.0, r),
            forall|player: Player, chessman: Chessman|
                self == #[trigger] Piece::spec_new(player, chessman) ==> r == chessman,
    {
        proof {
            use_type_invariant(self);
            Piece::lemma_wf(self);
            Piece::lemma_new_decodes();
        }
        let tag: u8 = self.byte & 0b111;
        match tag {
            1 => Chessman::Pawn,
            2 => Chessman::Bishop,
            3 => Chessman::Knight,
            4 => Chessman::Rook,
            5 => Chessman::King,
            _ => Chessman::Queen,
        }
    }

    /// The player and the kind of the piece, decoded together.
    pub fn info(self) -> (r: (Player, Chessman))
        ensures
            r == self@,
            self == Piece::spec_new(r.0, r.1),
            forall|player: Player, chessman: Chessman|
                self == #[trigger] Piece::spec_new(player, chessman) ==> r == (player, chessman),
    {
        proof {
            use_type_invariant(self);
            Piece::lemma_wf(self);
            Piece::lemma_new_decodes();
        }
        (self.player(), self.chessman())
    }

    /// The nibble that holds an optional piece in a packed pair.
    pub(crate) fn nibble(p: Option<Piece>) -> (n: u8)
        ensures
            n == Piece::spec_nibble(p),
            is_nibble(n),
            n < 16,
            n == 0 <==> p is None,
            Piece::spec_from_nibble(n) == p,
    {
        match p {
            Some(q) => {
                proof {
                    use_type_invariant(q);
                    Piece::lemma_wf(q);
                }
                q.byte
            },
            None => 0,
        }
    }

    /// The optional piece that a nibble of a packed pair holds.
    pub(crate) fn from_nibble(n: u8) -> (p: Option<Piece>)
        requires
            is_nibble(n),
        ensures
            p == Piece::spec_from_nibble(n),
    {
        if n == 0 {
            None
        } else {
            Some(Piece { byte: n })
        }
    }

    /// Decoding a freshly built piece gives back the player and the chessman
    /// it was built from; the piece is well formed and its byte is the
    /// player's tag shifted left by three, or-ed with the chessman's tag.
    pub proof fn lemma_new(player: Player, chessman: Chessman)
        ensures
            Piece::spec_new(player, chessman)@ == (player, chessman),
            Piece::spec_new(player, chessman).wf(),
            Piece::spec_new(player, chessman).spec_byte() == piece_byte(player, chessman),
    {
        lemma_tags_pack(player.spec_tag(), chessman.spec_tag());
    }

    /// Every piece that is built from a player and a chessman decodes to
    /// that player and that chessman, so no two pairs build the same piece.
    proof fn lemma_new_decodes()
        ensures
            forall|player: Player, chessman: Chessman|
                (#[trigger] Piece::spec_new(player, chessman))@ == (player, chessman),
    {
        assert forall|player: Player, chessman: Chessman|
            (#[trigger] Piece::spec_new(player, chessman))@ == (player, chessman) by {
            Piece::lemma_new(player, chessman);
        }
    }

    /// The byte of a well-formed piece is never zero, fits in a nibble and
    /// encodes the player and the chessman that it decodes to, so a
    /// well-formed piece is the one built from its own player and chessman.
    pub proof fn lemma_wf(p: Piece)
        requires
            p.wf(),
        ensures
            p.spec_byte() != 0,
            p.spec_byte() < 16,
            p.spec_byte() == piece_byte(p@.0, p@.1),
            p == Piece::spec_new(p@.0, p@.1),
    {
        lemma_tags_unpack(p.byte);
    }

    /// Two pieces held as the same byte are the same piece.
    pub proof fn lemma_same_byte(p: Piece, q: Piece)
        requires
            p.spec_byte() == q.spec_byte(),
        ensures
            p == q,
    {
    }

    /// A nibble holds no piece exactly when it is zero. The piece that
    /// another nibble holds is held as that very byte, and is well formed
    /// where the nibble is a piece's byte.
    pub proof fn lemma_from_nibble(n: u8)
        ensures
            Piece::spec_from_nibble(n) is None <==> n == 0,
            Piece::spec_from_nibble(n) matches Some(q) ==> q.spec_byte() == n,
            Piece::spec_from_nibble(n) matches Some(q) ==> (q.wf() <==> is_nibble(n)),
            Piece::spec_nibble(Piece::spec_from_nibble(n)) == n,
    {
    }

    /// The nibble of an optional well-formed piece is zero or a piece's
    /// byte, and holds that optional piece again.
    pub proof fn lemma_nibble(p: Option<Piece>)
        requires
            p matches Some(q) ==> q.wf(),
        ensures
            Piece::spec_from_nibble(Piece::spec_nibble(p)) == p,
            is_nibble(Piece::spec_nibble(p)),
            Piece::spec_nibble(p) < 16,
            Piece::spec_nibble(p) == 0 <==> p is None,
    {
        if let Some(q) = p {
            Piece::lemma_wf(q);
        }
    }
}

/// Packing a player's tag and a chessman's tag into a byte loses neither, and
/// the byte is a nonzero nibble.
proof fn lemma_tags_pack(pv: u8, cv: u8)
    by (bit_vector)
    requires
        pv <= 1,
        1 <= cv <= 6,
    ensures
        ((pv << 3) | cv) >> 3 == pv,
        ((pv << 3) | cv) & 0b111 == cv,
        ((pv << 3) | cv) != 0,
        ((pv << 3) | cv) < 16,
{
}

/// A byte is put together again from its bits 3 and up and its bits 0 to 2.
proof fn lemma_tags_unpack(b: u8)
    by (bit_vector)
    ensures
        ((b >> 3) << 3) | (b & 0b111) == b,
        b >> 3 <= 1 ==> b < 16,
        b & 0b111 != 0 ==> b != 0,
{
}

} // verus!
