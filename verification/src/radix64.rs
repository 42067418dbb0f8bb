//! Base64 text with the standard alphabet and `=` padding.
//!
//! Three bytes are read as one 24-bit number and written as four characters,
//! six bits each. A last group of one or two bytes is filled with zero bits and
//! its unused characters are written as `=`.

use vstd::prelude::*;

verus! {

/// The longest input that `text_of` turns into text: four characters for
/// every three bytes must still fit in a string.
pub open spec fn max_source_len() -> nat {
    (usize::MAX / 4) as nat
}

/// The character of the standard alphabet that stands for the six-bit value
/// `v`: `A`-`Z`, `a`-`z`, `0`-`9`, `+`, `/`.
pub open spec fn sextet_char(v: int) -> char {
    if v < 26 {
        (v + 65) as char
    } else if v < 52 {
        (v + 71) as char
    } else if v < 62 {
        (v - 4) as char
    } else if v == 62 {
        '+'
    } else {
        '/'
    }
}

/// The six-bit value that `c` stands for, if `c` is in the standard alphabet.
pub open spec fn char_sextet(c: char) -> Option<int> {
    if 'A' <= c && c <= 'Z' {
        Some(c as int - 65)
    } else if 'a' <= c && c <= 'z' {
        Some(c as int - 71)
    } else if '0' <= c && c <= '9' {
        Some(c as int + 4)
    } else if c == '+' {
        Some(62)
    } else if c == '/' {
        Some(63)
    } else {
        None
    }
}

/// Three bytes as one 24-bit number, the first byte highest.
pub open spec fn group_value(b0: u8, b1: u8, b2: u8) -> int {
    b0 as int * 65536 + b1 as int * 256 + b2 as int
}

/// The six-bit digit at `place` of a 24-bit number; place 0 is the highest.
pub open spec fn sextet_at(n: int, place: int) -> int {
    if place == 0 {
        n / 262144
    } else if place == 1 {
        n / 4096 % 64
    } else if place == 2 {
        n / 64 % 64
    } else {
        n % 64
    }
}

/// Four six-bit digits as one 24-bit number, the first digit highest.
pub open spec fn sextets_value(s0: int, s1: int, s2: int, s3: int) -> int {
    s0 * 262144 + s1 * 4096 + s2 * 64 + s3
}

/// The four characters for one group of one, two or three bytes.
pub open spec fn group_text(group: Seq<u8>) -> Seq<char>
    recommends
        1 <= group.len() <= 3,
{
    let b1 = if group.len() >= 2 { group[1] } else { 0u8 };
    let b2 = if group.len() >= 3 { group[2] } else { 0u8 };
    let n = group_value(group[0], b1, b2);
    seq![
        sextet_char(sextet_at(n, 0)),
        sextet_char(sextet_at(n, 1)),
        if group.len() >= 2 { sextet_char(sextet_at(n, 2)) } else { '=' },
        if group.len() >= 3 { sextet_char(sextet_at(n, 3)) } else { '=' },
    ]
}

/// The base64 text of `bytes`.
pub open spec fn base64_text(bytes: Seq<u8>) -> Seq<char>
    decreases bytes.len(),
{
    if bytes.len() == 0 {
        Seq::empty()
    } else if bytes.len() <= 3 {
        group_text(bytes)
    } else {
        group_text(bytes.take(3)) + base64_text(bytes.skip(3))
    }
}

/// The bytes that four characters stand for: three where no character is
/// `=`, two or one where the last one or two are `=` and the bits that no
/// byte takes up are zero. `None` for anything else.
pub open spec fn group_bytes(quad: Seq<char>) -> Option<Seq<u8>>
    recommends
        quad.len() == 4,
{
    let pad2 = quad[2] == '=';
    let pad3 = quad[3] == '=';
    let s2 = if pad2 { Some(0int) } else { char_sextet(quad[2]) };
    let s3 = if pad3 { Some(0int) } else { char_sextet(quad[3]) };
    match (char_sextet(quad[0]), char_sextet(quad[1]), s2, s3) {
        (Some(s0), Some(s1), Some(s2), Some(s3)) => {
            let n = sextets_value(s0, s1, s2, s3);
            if !pad3 && !pad2 {
                Some(seq![(n / 65536) as u8, (n / 256 % 256) as u8, (n % 256) as u8])
            } else if pad3 && !pad2 && n % 256 == 0 {
                Some(seq![(n / 65536) as u8, (n / 256 % 256) as u8])
            } else if pad3 && pad2 && n % 65536 == 0 {
                Some(seq![(n / 65536) as u8])
            } else {
                None
            }
        },
        _ => None,
    }
}

/// The bytes that a base64 text stands for, or `None` where the text is not
/// the base64 text of any bytes. Only the last four characters may hold `=`.
pub open spec fn base64_bytes(text: Seq<char>) -> Option<Seq<u8>>
    decreases text.len(),
{
    if text.len() == 0 {
        Some(Seq::empty())
    } else if text.len() < 4 {
        None
    } else if text.len() == 4 {
        group_bytes(text)
    } else {
        match (group_bytes(text.take(4)), base64_bytes(text.skip(4))) {
            (Some(head), Some(tail)) if head.len() == 3 => Some(head + tail),
            _ => None,
        }
    }
}

/// `base64::Engine::encode` of the engine
/// `base64::engine::general_purpose::STANDARD`: the base64 text of `bytes`
/// with the alphabet `A`-`Z`, `a`-`z`, `0`-`9`, `+`, `/` and with `=` padding.
/// The call panics where the length of the text cannot be computed or
/// allocated, which the bound on the input rules out.
#[verifier::external_body]
pub(crate) fn standard_encode(bytes: &[u8]) -> (text: String)
    requires
        bytes@.len() <= max_source_len(),
    ensures
        text@ == base64_text(bytes@),
{
    base64::Engine::encode(&base64::engine::general_purpose::STANDARD, bytes)
}

/// The base64 text of `bytes`, or `None` where `bytes` is too long for its
/// text to fit in a string.
pub fn text_of(bytes: &[u8]) -> (text: Option<String>)
    ensures
        bytes@.len() <= max_source_len() ==> text.is_some() && text.unwrap()@ == base64_text(
            bytes@,
        ),
        bytes@.len() > max_source_len() ==> text.is_none(),
{
    if bytes.len() <= usize::MAX / 4 {
        Some(standard_encode(bytes))
    } else {
        None
    }
}

/// Each six-bit value is read back from its character, and no such character
/// is the padding character.
pub proof fn lemma_sextet_char_inverts(v: int)
    requires
        0 <= v < 64,
    ensures
        char_sextet(sextet_char(v)) == Some(v),
        sextet_char(v) != '=',
{
}

/// A 24-bit number is the value of its four six-bit digits.
pub proof fn lemma_sextets_recompose(n: int)
    requires
        0 <= n < 16777216,
    ensures
        sextets_value(sextet_at(n, 0), sextet_at(n, 1), sextet_at(n, 2), sextet_at(n, 3)) == n,
        forall|place: int| 0 <= place < 4 ==> 0 <= #[trigger] sextet_at(n, place) < 64,
{
}

/// The three bytes of a group are the base-256 digits of its value.
pub proof fn lemma_group_value_digits(b0: u8, b1: u8, b2: u8)
    ensures
        0 <= group_value(b0, b1, b2) < 16777216,
        group_value(b0, b1, b2) / 65536 == b0,
        group_value(b0, b1, b2) / 256 % 256 == b1,
        group_value(b0, b1, b2) % 256 == b2,
        b2 == 0 ==> sextet_at(group_value(b0, b1, b2), 3) == 0,
        b1 == 0 && b2 == 0 ==> sextet_at(group_value(b0, b1, b2), 2) == 0,
{
}

/// One group of one, two or three bytes is read back from its four
/// characters.
pub proof fn lemma_group_round_trip(group: Seq<u8>)
    requires
        1 <= group.len() <= 3,
    ensures
        group_text(group).len() == 4,
        group_bytes(group_text(group)) == Some(group),
{
    let b1 = if group.len() >= 2 { group[1] } else { 0u8 };
    let b2 = if group.len() >= 3 { group[2] } else { 0u8 };
    let n = group_value(group[0], b1, b2);
    let quad = group_text(group);
    let s0 = sextet_at(n, 0);
    let s1 = sextet_at(n, 1);
    let s2 = sextet_at(n, 2);
    let s3 = sextet_at(n, 3);
    lemma_group_value_digits(group[0], b1, b2);
    lemma_sextets_recompose(n);
    lemma_sextet_char_inverts(s0);
    lemma_sextet_char_inverts(s1);
    lemma_sextet_char_inverts(s2);
    lemma_sextet_char_inverts(s3);
    assert(char_sextet(quad[0]) == Some(s0));
    assert(char_sextet(quad[1]) == Some(s1));
    assert(sextets_value(s0, s1, s2, s3) == n);
    if group.len() == 1 {
        assert(quad[2] == '=' && quad[3] == '=');
        assert(s2 == 0 && s3 == 0);
        assert(n % 65536 == 0);
        assert(group_bytes(quad) == Some(seq![(n / 65536) as u8]));
        assert(seq![(n / 65536) as u8] =~= group);
    } else if group.len() == 2 {
        assert(quad[2] != '=' && quad[3] == '=');
        assert(char_sextet(quad[2]) == Some(s2));
        assert(s3 == 0);
        assert(group_bytes(quad) == Some(seq![(n / 65536) as u8, (n / 256 % 256) as u8]));
        assert(seq![(n / 65536) as u8, (n / 256 % 256) as u8] =~= group);
    } else {
        assert(quad[2] != '=' && quad[3] != '=');
        assert(char_sextet(quad[2]) == Some(s2));
        assert(char_sextet(quad[3]) == Some(s3));
        assert(group_bytes(quad) == Some(
            seq![(n / 65536) as u8, (n / 256 % 256) as u8, (n % 256) as u8],
        ));
        assert(seq![(n / 65536) as u8, (n / 256 % 256) as u8, (n % 256) as u8] =~= group);
    }
}

/// Decoding the base64 text of any bytes gives those bytes back.
pub proof fn lemma_base64_round_trip(bytes: Seq<u8>)
    ensures
        base64_bytes(base64_text(bytes)) == Some(bytes),
    decreases bytes.len(),
{
    if bytes.len() == 0 {
    } else if bytes.len() <= 3 {
        lemma_group_round_trip(bytes);
    } else {
        let head = bytes.take(3);
        let tail = bytes.skip(3);
        let text = base64_text(bytes);
        lemma_group_round_trip(head);
        lemma_base64_round_trip(tail);
        lemma_text_len(tail);
        assert(text.take(4) =~= group_text(head));
        assert(text.skip(4) =~= base64_text(tail));
        assert(head + tail =~= bytes);
    }
}

/// The text has four characters for every started group of three bytes.
pub proof fn lemma_text_len(bytes: Seq<u8>)
    ensures
        base64_text(bytes).len() == 4 * ((bytes.len() + 2) / 3),
    decreases bytes.len(),
{
    if bytes.len() > 3 {
        lemma_text_len(bytes.skip(3));
    }
}

} // verus!
