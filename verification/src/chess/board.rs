//! Squares and moves in their text forms.

use vstd::prelude::*;
use vstd::string::*;
use crate::text::{decimal_string, decimal_text};

verus! {

/// The kinds of chess pieces.
#[derive(Debug, Clone, Copy, PartialEq, Eq, Structural)]
pub enum PieceType {
    Pawn,
    Rook,
    Knight,
    Bishop,
    Queen,
    King,
}

/// The two sides.
#[derive(Debug, Clone, Copy, PartialEq, Eq, Structural)]
pub enum Color {
    White,
    Black,
}

/// A square of the board: file 0 to 7 for `a` to `h`, rank 0 to 7 for `1` to `8`.
#[derive(Debug, Clone, Copy, PartialEq, Eq, Structural)]
pub struct Square {
    pub file: u8,
    pub rank: u8,
}

/// A move from one square to another, with the piece a pawn is promoted to.
#[derive(Debug, Clone, Copy, PartialEq, Eq)]
pub struct ChessMove {
    pub from: Square,
    pub to: Square,
    pub promotion: Option<PieceType>,
}

/// The square that a text of two characters names, a file letter `a` to
/// `h` and a rank digit `1` to `8`.
pub open spec fn square_of_text(s: Seq<char>) -> Option<Square> {
    if s.len() == 2 && 'a' <= s[0] && s[0] <= 'h' && '1' <= s[1] && s[1] <= '8' {
        Some(Square { file: (s[0] as u8 - 'a' as u8) as u8, rank: (s[1] as u8 - '1' as u8) as u8 })
    } else {
        None
    }
}

/// The piece that a promotion letter names.
pub open spec fn promotion_of_char(c: char) -> Option<PieceType> {
    if c == 'q' {
        Some(PieceType::Queen)
    } else if c == 'r' {
        Some(PieceType::Rook)
    } else if c == 'b' {
        Some(PieceType::Bishop)
    } else if c == 'n' {
        Some(PieceType::Knight)
    } else {
        None
    }
}

/// The letter that stands for a promotion; a queen where the piece is none
/// a pawn can become.
pub open spec fn promotion_char(piece: PieceType) -> char {
    match piece {
        PieceType::Rook => 'r',
        PieceType::Bishop => 'b',
        PieceType::Knight => 'n',
        _ => 'q',
    }
}

/// The move that a text names: two squares, and a promotion letter where a
/// fifth character is there. What follows the fifth character is not read.
pub open spec fn move_of_text(s: Seq<char>) -> Option<ChessMove> {
    if s.len() < 4 {
        None
    } else {
        match (square_of_text(s.subrange(0, 2)), square_of_text(s.subrange(2, 4))) {
            (Some(from), Some(to)) => Some(
                ChessMove {
                    from: from,
                    to: to,
                    promotion: if s.len() > 4 {
                        promotion_of_char(s[4])
                    } else {
                        None
                    },
                },
            ),
            _ => None,
        }
    }
}

impl Square {
    /// Whether the square lies on the board.
    pub open spec fn on_board(self) -> bool {
        self.file < 8 && self.rank < 8
    }

    /// Whether the square has a text form: its file has a letter and its
    /// rank a number within 8 bits.
    pub open spec fn printable(self) -> bool {
        self.file + 'a' as u8 <= u8::MAX && self.rank + 1 <= u8::MAX
    }

    /// The text of the square: the letter of its file, then the number of
    /// its rank.
    pub open spec fn text(self) -> Seq<char> {
        seq![((self.file + 'a' as u8) as u8) as char] + decimal_text((self.rank + 1) as nat)
    }

    pub fn new(file: u8, rank: u8) -> (r: Self)
        ensures
            r == (Square { file, rank }),
    {
        Self { file, rank }
    }

    /// Reads a square from text such as `e4`.
    pub fn from_algebraic(alg: &str) -> (r: Option<Self>)
        ensures
            r == square_of_text(alg@),
            r is Some ==> r.unwrap().on_board(),
    {
        if alg.unicode_len() != 2 {
            return None;
        }
        let f = alg.get_char(0);
        let k = alg.get_char(1);
        if 'a' <= f && f <= 'h' && '1' <= k && k <= '8' {
            Some(Self { file: (f as u8) - 97, rank: (k as u8) - 49 })
        } else {
            None
        }
    }

    /// Writes the square as text such as `e4`.
    pub fn to_algebraic(&self) -> (r: String)
        requires
            self.printable(),
        ensures
            r@ == self.text(),
    {
        char_string((self.file + 97) as char).concat(decimal_string((self.rank + 1) as u128).as_str())
    }

    /// The number of the square, counted rank by rank from `a1`.
    pub fn to_index(&self) -> (r: u8)
        requires
            self.rank * 8 + self.file <= u8::MAX,
        ensures
            r == self.rank * 8 + self.file,
    {
        self.rank * 8 + self.file
    }

    /// The square with the number `index`.
    pub fn from_index(index: u8) -> (r: Self)
        ensures
            r == (Square { file: index % 8, rank: index / 8 }),
            index < 64 ==> r.on_board(),
    {
        Self { file: index % 8, rank: index / 8 }
    }
}

/// Writes one character with `char::to_string`.
#[verifier::external_body]
fn char_string(c: char) -> (r: String)
    ensures
        r@ == seq![c],
{
    c.to_string()
}

impl ChessMove {
    /// The text of the move: both squares, then the promotion letter.
    pub open spec fn text(self) -> Seq<char> {
        self.from.text() + self.to.text() + match self.promotion {
            Some(piece) => seq![promotion_char(piece)],
            None => Seq::empty(),
        }
    }

    /// Reads a move from text such as `e2e4` or `e7e8q`.
    pub fn from_uci(uci: &str) -> (r: Option<Self>)
        ensures
            r == move_of_text(uci@),
    {
        let len = uci.unicode_len();
        if len < 4 {
            return None;
        }
        let from = match Square::from_algebraic(uci.substring_char(0, 2)) {
            Some(sq) => sq,
            None => {
                return None;
            },
        };
        let to = match Square::from_algebraic(uci.substring_char(2, 4)) {
            Some(sq) => sq,
            None => {
                return None;
            },
        };
        let promotion = if len > 4 {
            let c = uci.get_char(4);
            if c == 'q' {
                Some(PieceType::Queen)
            } else if c == 'r' {
                Some(PieceType::Rook)
            } else if c == 'b' {
                Some(PieceType::Bishop)
            } else if c == 'n' {
                Some(PieceType::Knight)
            } else {
                None
            }
        } else {
            None
        };
        Some(Self { from, to, promotion })
    }

    /// Writes the move as text such as `e2e4` or `e7e8q`.
    pub fn to_uci(&self) -> (r: String)
        requires
            self.from.printable(),
            self.to.printable(),
        ensures
            r@ == self.text(),
    {
        let uci = self.from.to_algebraic().concat(self.to.to_algebraic().as_str());
        match self.promotion {
            Some(piece) => {
                let letter = match piece {
                    PieceType::Rook => 'r',
                    PieceType::Bishop => 'b',
                    PieceType::Knight => 'n',
                    _ => 'q',
                };
                uci.concat(char_string(letter).as_str())
            },
            None => {
                assert(uci@ + Seq::<char>::empty() =~= uci@);
                uci
            },
        }
    }
}

/// Numbering the squares and reading the numbers back gives the same
/// squares, and the same numbers the other way round.
pub proof fn law_index_round_trip(square: Square, index: u8)
    ensures
        square.on_board() ==> square.rank * 8 + square.file < 64 && (Square {
            file: ((square.rank * 8 + square.file) % 8) as u8,
            rank: ((square.rank * 8 + square.file) / 8) as u8,
        }) == square,
        (index / 8) * 8 + index % 8 == index,
{
}

/// Every square of the board is read back from its own text.
pub proof fn law_square_text_round_trip(square: Square)
    requires
        square.on_board(),
    ensures
        square_of_text(square.text()) == Some(square),
{
    reveal_with_fuel(decimal_text, 2);
    let s = square.text();
    assert(s =~= seq![((square.file + 'a' as u8) as u8) as char, crate::text::digit_char((square.rank + 1) as nat)]);
}

/// Every move between squares of the board, with a promotion a pawn can
/// take or none, is read back from its own text.
pub proof fn law_move_text_round_trip(m: ChessMove)
    requires
        m.from.on_board(),
        m.to.on_board(),
        m.promotion != Some(PieceType::Pawn),
        m.promotion != Some(PieceType::King),
    ensures
        move_of_text(m.text()) == Some(m),
{
    reveal_with_fuel(decimal_text, 2);
    let a = m.from.text();
    let b = m.to.text();
    law_square_text_round_trip(m.from);
    law_square_text_round_trip(m.to);
    assert(a.len() == 2 && b.len() == 2);
    let s = m.text();
    assert(s.subrange(0, 2) =~= a);
    assert(s.subrange(2, 4) =~= b);
}

} // verus!
