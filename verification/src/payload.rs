//! Standard Base64 as mathematics: the text of a sequence of bytes, the bytes
//! of a text, and the proof that the second undoes the first.

use vstd::prelude::*;

verus! {

/// The character that stands for a six-bit value in the standard alphabet.
pub open spec fn sextet_char(value: int) -> char {
    if value < 26 {
        (value + 65) as char
    } else if value < 52 {
        (value + 71) as char
    } else if value < 62 {
        (value - 4) as char
    } else if value == 62 {
        '+'
    } else {
        '/'
    }
}

/// The four characters of a group: the 24 bits of three bytes, six at a time.
pub open spec fn group_chars(b0: int, b1: int, b2: int) -> Seq<char> {
    seq![
        sextet_char(b0 / 4),
        sextet_char(b0 % 4 * 16 + b1 / 16),
        sextet_char(b1 % 16 * 4 + b2 / 64),
        sextet_char(b2 % 64),
    ]
}

/// Standard Base64 with padding: three bytes become four characters, and a
/// last group of one or two bytes is filled up with zero bits and closed with
/// `=`.
pub open spec fn base64_text(bytes: Seq<u8>) -> Seq<char>
    decreases bytes.len(),
{
    if bytes.len() == 0 {
        Seq::empty()
    } else if bytes.len() == 1 {
        group_chars(bytes[0] as int, 0, 0).take(2) + seq!['=', '=']
    } else if bytes.len() == 2 {
        group_chars(bytes[0] as int, bytes[1] as int, 0).take(3) + seq!['=']
    } else {
        group_chars(bytes[0] as int, bytes[1] as int, bytes[2] as int) + base64_text(
            bytes.skip(3),
        )
    }
}

/// The number of characters that the Base64 text of `len` bytes has.
pub open spec fn base64_len(len: nat) -> nat {
    4 * ((len + 2) / 3)
}

/// The six-bit value that a character of the standard alphabet stands for.
pub open spec fn sextet_value(c: char) -> Option<int> {
    let code = c as int;
    if 65 <= code <= 90 {
        Some(code - 65)
    } else if 97 <= code <= 122 {
        Some(code - 71)
    } else if 48 <= code <= 57 {
        Some(code + 4)
    } else if c == '+' {
        Some(62)
    } else if c == '/' {
        Some(63)
    } else {
        None
    }
}

/// The three bytes of a group of four characters.
pub open spec fn group_bytes(chars: Seq<char>) -> Option<Seq<u8>>
    recommends
        chars.len() == 4,
{
    match (
        sextet_value(chars[0]),
        sextet_value(chars[1]),
        sextet_value(chars[2]),
        sextet_value(chars[3]),
    ) {
        (Some(v0), Some(v1), Some(v2), Some(v3)) => Some(
            seq![
                (v0 * 4 + v1 / 16) as u8,
                (v1 % 16 * 16 + v2 / 4) as u8,
                (v2 % 4 * 64 + v3) as u8,
            ],
        ),
        _ => None,
    }
}

/// The one or two bytes of a last group that ends in `=`. The bits that
/// padding filled in have to be zero.
pub open spec fn padded_group_bytes(chars: Seq<char>) -> Option<Seq<u8>>
    recommends
        chars.len() == 4,
        chars[3] == '=',
{
    if chars[2] == '=' {
        match (sextet_value(chars[0]), sextet_value(chars[1])) {
            (Some(v0), Some(v1)) => if v1 % 16 == 0 {
                Some(seq![(v0 * 4 + v1 / 16) as u8])
            } else {
                None
            },
            _ => None,
        }
    } else {
        match (sextet_value(chars[0]), sextet_value(chars[1]), sextet_value(chars[2])) {
            (Some(v0), Some(v1), Some(v2)) => if v2 % 4 == 0 {
                Some(seq![(v0 * 4 + v1 / 16) as u8, (v1 % 16 * 16 + v2 / 4) as u8])
            } else {
                None
            },
            _ => None,
        }
    }
}

/// The bytes that a Base64 text stands for; `None` where the text is no
/// standard Base64 with padding.
pub open spec fn base64_bytes(text: Seq<char>) -> Option<Seq<u8>>
    decreases text.len(),
{
    if text.len() == 0 {
        Some(Seq::empty())
    } else if text.len() < 4 {
        None
    } else if text.len() == 4 && text[3] == '=' {
        padded_group_bytes(text)
    } else {
        match (group_bytes(text.take(4)), base64_bytes(text.skip(4))) {
            (Some(head), Some(tail)) => Some(head + tail),
            _ => None,
        }
    }
}

/// Every six-bit value has a character of its own, which is not the padding.
pub proof fn lemma_sextet_round_trip(value: int)
    requires
        0 <= value < 64,
    ensures
        sextet_value(sextet_char(value)) == Some(value),
        sextet_char(value) != '=',
{
}

/// A group of four characters gives its three bytes back.
pub proof fn lemma_group_round_trip(b0: u8, b1: u8, b2: u8)
    ensures
        group_bytes(group_chars(b0 as int, b1 as int, b2 as int)) == Some(seq![b0, b1, b2]),
        group_chars(b0 as int, b1 as int, b2 as int)[3] != '=',
{
    let chars = group_chars(b0 as int, b1 as int, b2 as int);
    let v0 = b0 as int / 4;
    let v1 = b0 as int % 4 * 16 + b1 as int / 16;
    let v2 = b1 as int % 16 * 4 + b2 as int / 64;
    let v3 = b2 as int % 64;
    lemma_sextet_round_trip(v0);
    lemma_sextet_round_trip(v1);
    lemma_sextet_round_trip(v2);
    lemma_sextet_round_trip(v3);
    assert(group_bytes(chars)->0 =~= seq![b0, b1, b2]);
}

/// The Base64 text of a sequence of bytes stands for these bytes: decoding
/// undoes encoding.
pub proof fn lemma_base64_round_trip(bytes: Seq<u8>)
    ensures
        base64_bytes(base64_text(bytes)) == Some(bytes),
        base64_text(bytes).len() == base64_len(bytes.len()),
    decreases bytes.len(),
{
    let text = base64_text(bytes);
    if bytes.len() == 0 {
        assert(base64_bytes(text)->0 =~= bytes);
    } else if bytes.len() == 1 {
        let v0 = bytes[0] as int / 4;
        let v1 = bytes[0] as int % 4 * 16;
        lemma_sextet_round_trip(v0);
        lemma_sextet_round_trip(v1);
        assert(text.len() == 4);
        assert(padded_group_bytes(text)->0 =~= bytes);
    } else if bytes.len() == 2 {
        let v0 = bytes[0] as int / 4;
        let v1 = bytes[0] as int % 4 * 16 + bytes[1] as int / 16;
        let v2 = bytes[1] as int % 16 * 4;
        lemma_sextet_round_trip(v0);
        lemma_sextet_round_trip(v1);
        lemma_sextet_round_trip(v2);
        assert(text.len() == 4);
        assert(padded_group_bytes(text)->0 =~= bytes);
    } else {
        let head = group_chars(bytes[0] as int, bytes[1] as int, bytes[2] as int);
        let rest = bytes.skip(3);
        lemma_group_round_trip(bytes[0], bytes[1], bytes[2]);
        lemma_base64_round_trip(rest);
        assert(text == head + base64_text(rest));
        assert(text.take(4) =~= head);
        assert(text.skip(4) =~= base64_text(rest));
        assert(text[3] == head[3]);
        assert(seq![bytes[0], bytes[1], bytes[2]] + rest =~= bytes);
    }
}

} // verus!
