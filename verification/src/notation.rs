//! Move notation: squares as text tokens, and two tokens as a move message.
//!
//! A square is a (rank, file) pair, each in 0..8.  Its token is one lowercase
//! file letter 'a'..'h' followed by one rank digit '1'..'8'; the digit of
//! rank `r` is `r + 1`, and the same mapping is used by the encode and the
//! decode path.  A move message is `"<from> <to>"` with exactly one space.

use crate::codec::ProtocolError;
use vstd::prelude::*;
use vstd::string::{StrSliceExecFns, StringExecFns};
use vstd::utf8::{encode_utf8, is_ascii_chars, is_ascii_chars_encode_utf8};

verus! {

/// A board square: (rank, file), each in 0..8.
pub type Square = (usize, usize);

/// Whether `pos` lies on the board.
pub open spec fn on_board(pos: Square) -> bool {
    pos.0 < 8 && pos.1 < 8
}

/// The letter of file `f`: 0 ↦ 'a' … 7 ↦ 'h'.
pub open spec fn file_char(f: int) -> char {
    if f == 0 {
        'a'
    } else if f == 1 {
        'b'
    } else if f == 2 {
        'c'
    } else if f == 3 {
        'd'
    } else if f == 4 {
        'e'
    } else if f == 5 {
        'f'
    } else if f == 6 {
        'g'
    } else {
        'h'
    }
}

/// The digit of rank `r`: 0 ↦ '1' … 7 ↦ '8'.
pub open spec fn rank_char(r: int) -> char {
    if r == 0 {
        '1'
    } else if r == 1 {
        '2'
    } else if r == 2 {
        '3'
    } else if r == 3 {
        '4'
    } else if r == 4 {
        '5'
    } else if r == 5 {
        '6'
    } else if r == 6 {
        '7'
    } else {
        '8'
    }
}

/// Whether `c` names a file.
pub open spec fn is_file_char(c: char) -> bool {
    'a' <= c && c <= 'h'
}

/// Whether `c` names a rank.
pub open spec fn is_rank_char(c: char) -> bool {
    '1' <= c && c <= '8'
}

/// The file named by letter `c`, inverse of `file_char` on 'a'..'h'.
pub open spec fn char_file(c: char) -> usize {
    if c == 'a' {
        0
    } else if c == 'b' {
        1
    } else if c == 'c' {
        2
    } else if c == 'd' {
        3
    } else if c == 'e' {
        4
    } else if c == 'f' {
        5
    } else if c == 'g' {
        6
    } else {
        7
    }
}

/// The rank named by digit `c`, inverse of `rank_char` on '1'..'8'.
pub open spec fn char_rank(c: char) -> usize {
    if c == '1' {
        0
    } else if c == '2' {
        1
    } else if c == '3' {
        2
    } else if c == '4' {
        3
    } else if c == '5' {
        4
    } else if c == '6' {
        5
    } else if c == '7' {
        6
    } else {
        7
    }
}

/// The token of `pos`: its file letter then its rank digit.
pub open spec fn square_token(pos: Square) -> Seq<char> {
    seq![file_char(pos.1 as int), rank_char(pos.0 as int)]
}

/// Whether the first two characters of `s` name a square.
pub open spec fn valid_token(s: Seq<char>) -> bool {
    s.len() >= 2 && is_file_char(s[0]) && is_rank_char(s[1])
}

/// The square a valid token names: (rank, file).
pub open spec fn token_square(s: Seq<char>) -> Square {
    (char_rank(s[1]), char_file(s[0]))
}

/// The wire text of a move: from-token, one space, to-token.
pub open spec fn move_message(from: Square, to: Square) -> Seq<char> {
    square_token(from) + seq![' '] + square_token(to)
}

/// Whether `s` is a well-formed move message.
pub open spec fn wf_move_message(s: Seq<char>) -> bool {
    &&& s.len() == 5
    &&& is_file_char(s[0])
    &&& is_rank_char(s[1])
    &&& s[2] == ' '
    &&& is_file_char(s[3])
    &&& is_rank_char(s[4])
}

/// The source square of a well-formed move message.
pub open spec fn message_from(s: Seq<char>) -> Square {
    (char_rank(s[1]), char_file(s[0]))
}

/// The destination square of a well-formed move message.
pub open spec fn message_to(s: Seq<char>) -> Square {
    (char_rank(s[4]), char_file(s[3]))
}

/// One fixed mapping, used by both directions: the token of a square names
/// exactly that square.
pub proof fn lemma_square_token_round_trip(pos: Square)
    requires
        on_board(pos),
    ensures
        valid_token(square_token(pos)),
        token_square(square_token(pos)) == pos,
{
}

/// A move message parses back to the two squares that wrote it.
pub proof fn lemma_move_message_round_trip(from: Square, to: Square)
    requires
        on_board(from),
        on_board(to),
    ensures
        wf_move_message(move_message(from, to)),
        message_from(move_message(from, to)) == from,
        message_to(move_message(from, to)) == to,
{
    let m = move_message(from, to);
    assert(m[0] == file_char(from.1 as int));
    assert(m[1] == rank_char(from.0 as int));
    assert(m[2] == ' ');
    assert(m[3] == file_char(to.1 as int));
    assert(m[4] == rank_char(to.0 as int));
}

/// Move-message text is ASCII and free of zero characters, so its UTF-8
/// bytes are the characters themselves and always fit one frame.
pub proof fn lemma_move_message_representable(from: Square, to: Square)
    requires
        on_board(from),
        on_board(to),
    ensures
        crate::codec::representable(encode_utf8(move_message(from, to))),
        encode_utf8(move_message(from, to)).len() == 5,
{
    let m = move_message(from, to);
    lemma_move_message_round_trip(from, to);
    assert(is_ascii_chars(m)) by {
        assert forall|i: int| 0 <= i < m.len() implies '\0' <= #[trigger] m[i] <= '\u{7f}' by {
            assert(m[0] == file_char(from.1 as int));
            assert(m[1] == rank_char(from.0 as int));
            assert(m[2] == ' ');
            assert(m[3] == file_char(to.1 as int));
            assert(m[4] == rank_char(to.0 as int));
        }
    }
    is_ascii_chars_encode_utf8(m);
    assert forall|j: int| 0 <= j < encode_utf8(m).len() implies encode_utf8(m)[j] != 0 by {
        assert(encode_utf8(m)[j] == m[j] as u8);
        assert(m[0] == file_char(from.1 as int));
        assert(m[1] == rank_char(from.0 as int));
        assert(m[2] == ' ');
        assert(m[3] == file_char(to.1 as int));
        assert(m[4] == rank_char(to.0 as int));
    }
}

/// The wire invariant: the frame built from a move message decodes, byte for
/// byte, to exactly that message.
pub proof fn lemma_wire_round_trip(from: Square, to: Square)
    requires
        on_board(from),
        on_board(to),
    ensures
        vstd::utf8::valid_utf8(
            crate::codec::payload_of(crate::codec::frame_of(encode_utf8(move_message(from, to)))),
        ),
        vstd::utf8::decode_utf8(
            crate::codec::payload_of(crate::codec::frame_of(encode_utf8(move_message(from, to)))),
        ) == move_message(from, to),
{
    lemma_move_message_representable(from, to);
    crate::codec::lemma_message_round_trip(move_message(from, to));
}

/// The text of one square: a two-character string, file letter then rank
/// digit, under the fixed rank mapping.
pub fn pos_string(pos: Square) -> (s: String)
    requires
        on_board(pos),
    ensures
        s@ == square_token(pos),
{
    let file_s: &str = if pos.1 == 0 {
        "a"
    } else if pos.1 == 1 {
        "b"
    } else if pos.1 == 2 {
        "c"
    } else if pos.1 == 3 {
        "d"
    } else if pos.1 == 4 {
        "e"
    } else if pos.1 == 5 {
        "f"
    } else if pos.1 == 6 {
        "g"
    } else {
        "h"
    };
    let rank_s: &str = if pos.0 == 0 {
        "1"
    } else if pos.0 == 1 {
        "2"
    } else if pos.0 == 2 {
        "3"
    } else if pos.0 == 3 {
        "4"
    } else if pos.0 == 4 {
        "5"
    } else if pos.0 == 5 {
        "6"
    } else if pos.0 == 6 {
        "7"
    } else {
        "8"
    };
    proof {
        reveal_strlit("a");
        reveal_strlit("b");
        reveal_strlit("c");
        reveal_strlit("d");
        reveal_strlit("e");
        reveal_strlit("f");
        reveal_strlit("g");
        reveal_strlit("h");
        reveal_strlit("1");
        reveal_strlit("2");
        reveal_strlit("3");
        reveal_strlit("4");
        reveal_strlit("5");
        reveal_strlit("6");
        reveal_strlit("7");
        reveal_strlit("8");
    }
    let mut s = String::from_str(file_s);
    s.append(rank_s);
    proof {
        assert(s@ =~= square_token(pos));
    }
    s
}

/// The square named by a pair of token characters, or `None` when either
/// character is off the board.
fn square_chars(c_file: char, c_rank: char) -> (r: Option<Square>)
    ensures
        r is Some <==> is_file_char(c_file) && is_rank_char(c_rank),
        r matches Some(pos) ==> pos == (char_rank(c_rank), char_file(c_file)) && on_board(pos),
{
    let file: usize = if c_file == 'a' {
        0
    } else if c_file == 'b' {
        1
    } else if c_file == 'c' {
        2
    } else if c_file == 'd' {
        3
    } else if c_file == 'e' {
        4
    } else if c_file == 'f' {
        5
    } else if c_file == 'g' {
        6
    } else if c_file == 'h' {
        7
    } else {
        return None;
    };
    let rank: usize = if c_rank == '1' {
        0
    } else if c_rank == '2' {
        1
    } else if c_rank == '3' {
        2
    } else if c_rank == '4' {
        3
    } else if c_rank == '5' {
        4
    } else if c_rank == '6' {
        5
    } else if c_rank == '7' {
        6
    } else if c_rank == '8' {
        7
    } else {
        return None;
    };
    Some((rank, file))
}

/// The squares named by a list of square tokens, as (rank, file) pairs, in
/// the same order.
pub fn pos_coord_vec(tokens: Vec<String>) -> (out: Vec<Square>)
    requires
        forall|i: int| 0 <= i < tokens@.len() ==> valid_token(#[trigger] tokens@[i]@),
    ensures
        out@.len() == tokens@.len(),
        forall|i: int|
            0 <= i < out@.len() ==> #[trigger] out@[i] == token_square(tokens@[i]@) && on_board(
                out@[i],
            ),
{
    let mut out: Vec<Square> = Vec::new();
    let mut i: usize = 0;
    while i < tokens.len()
        invariant
            i <= tokens@.len(),
            out@.len() == i,
            forall|k: int|
                0 <= k < i ==> #[trigger] out@[k] == token_square(tokens@[k]@) && on_board(
                    out@[k],
                ),
            forall|k: int| 0 <= k < tokens@.len() ==> valid_token(#[trigger] tokens@[k]@),
        decreases tokens@.len() - i,
    {
        let t: &String = &tokens[i];
        let c_file = t.as_str().get_char(0);
        let c_rank = t.as_str().get_char(1);
        match square_chars(c_file, c_rank) {
            Some(pos) => out.push(pos),
            None => {
                proof {
                    assert(false);
                }
            },
        }
        i = i + 1;
    }
    out
}

/// Writes the move message for two squares: `"<from> <to>"`.
pub fn make_move_message(from: Square, to: Square) -> (m: String)
    requires
        on_board(from),
        on_board(to),
    ensures
        m@ == move_message(from, to),
{
    proof {
        reveal_strlit(" ");
    }
    let mut m = pos_string(from);
    m.append(" ");
    let t = pos_string(to);
    m.append(t.as_str());
    proof {
        assert(m@ =~= move_message(from, to));
    }
    m
}

/// Splits a move message into its two squares.  Anything but two valid
/// square tokens separated by one space fails with `MalformedMessage`; the
/// message is dropped, nothing more.
pub fn parse_move_message(m: &str) -> (r: Result<(Square, Square), ProtocolError>)
    ensures
        r is Ok <==> wf_move_message(m@),
        r matches Ok(p) ==> p == (message_from(m@), message_to(m@)) && on_board(p.0) && on_board(
            p.1,
        ),
        r is Err ==> r == Err::<(Square, Square), ProtocolError>(ProtocolError::MalformedMessage),
{
    if m.unicode_len() != 5 {
        return Err(ProtocolError::MalformedMessage);
    }
    let c2 = m.get_char(2);
    if c2 != ' ' {
        return Err(ProtocolError::MalformedMessage);
    }
    let from = square_chars(m.get_char(0), m.get_char(1));
    let to = square_chars(m.get_char(3), m.get_char(4));
    match (from, to) {
        (Some(f), Some(t)) => Ok((f, t)),
        _ => Err(ProtocolError::MalformedMessage),
    }
}

} // verus!
