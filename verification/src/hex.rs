//! Hex text: bytes written as pairs of hex digits, with optional separators.

use crate::error::{ErrorModel, NotificationError};
use vstd::prelude::*;
use vstd::std_specs::iter::IteratorSpec;
use vstd::string::*;
use vstd::utf8::*;

verus! {

/// The most hex digits that [`is_hex`] accepts: two for each byte of the
/// longest BGP message.
pub const MAX_HEX_DIGITS: usize = 8192;

/// The characters with the Unicode property White_Space.
pub open spec fn is_white_space(c: char) -> bool {
    let u = c as u32;
    ||| 0x09 <= u <= 0x0d
    ||| u == 0x20
    ||| u == 0x85
    ||| u == 0xa0
    ||| u == 0x1680
    ||| 0x2000 <= u <= 0x200a
    ||| u == 0x2028
    ||| u == 0x2029
    ||| u == 0x202f
    ||| u == 0x205f
    ||| u == 0x3000
}

/// The characters that hex text may hold between its digits and that carry
/// no meaning: white space, `:` and `-`.
pub open spec fn is_separator(c: char) -> bool {
    is_white_space(c) || c == ':' || c == '-'
}

/// The value of a hex digit, in either case; `None` for any other character.
pub open spec fn hex_digit_value(c: char) -> Option<u8> {
    if '0' <= c <= '9' {
        Some((c as u32 - 0x30) as u8)
    } else if 'a' <= c <= 'f' {
        Some((c as u32 - 0x61 + 10) as u8)
    } else if 'A' <= c <= 'F' {
        Some((c as u32 - 0x41 + 10) as u8)
    } else {
        None
    }
}

/// The lowercase hex digit of a value below sixteen.
pub open spec fn hex_char(nibble: int) -> char
    recommends
        0 <= nibble < 16,
{
    if nibble < 10 {
        (0x30 + nibble) as char
    } else {
        (0x57 + nibble) as char
    }
}

/// What is left of hex text once its separators are taken out.
pub open spec fn significant(text: Seq<char>) -> Seq<char> {
    text.filter(|c: char| !is_separator(c))
}

/// Every character is a hex digit.
pub open spec fn all_hex_digits(digits: Seq<char>) -> bool {
    forall|i: int| 0 <= i < digits.len() ==> hex_digit_value(#[trigger] digits[i]) is Some
}

/// The byte that two hex digits stand for, the high one first.
pub open spec fn byte_of_digits(high: char, low: char) -> u8
    recommends
        hex_digit_value(high) is Some,
        hex_digit_value(low) is Some,
{
    (16 * hex_digit_value(high).unwrap() + hex_digit_value(low).unwrap()) as u8
}

/// The bytes that a run of hex digits stands for, pair by pair. A digit left
/// over at the end stands for nothing.
pub open spec fn bytes_of_digits(digits: Seq<char>) -> Seq<u8> {
    Seq::new(
        (digits.len() / 2) as nat,
        |i: int| byte_of_digits(digits[2 * i], digits[2 * i + 1]),
    )
}

/// `position` is the place of the first character of `text` that is neither
/// a separator nor a hex digit.
pub open spec fn is_first_invalid(text: Seq<char>, position: int) -> bool {
    &&& 0 <= position < text.len()
    &&& !is_separator(text[position])
    &&& hex_digit_value(text[position]) is None
    &&& forall|j: int|
        0 <= j < position ==> is_separator(#[trigger] text[j]) || hex_digit_value(text[j]) is Some
}

/// The place of the first character of `text` that is neither a separator
/// nor a hex digit, where there is one.
pub open spec fn first_invalid(text: Seq<char>) -> int {
    choose|position: int| is_first_invalid(text, position)
}

/// What parsing `text` as hex gives when at most `max_bytes` bytes are allowed.
///
/// Separators are ignored. The checks come in this order: an odd number of
/// digits, too many bytes, a character that is no hex digit. Text without
/// any digit stands for no bytes.
pub open spec fn parsed_hex(text: Seq<char>, max_bytes: nat) -> Result<Seq<u8>, ErrorModel> {
    let digits = significant(text);
    if digits.len() % 2 != 0 {
        Err(ErrorModel::OddLength { digits: digits.len() })
    } else if digits.len() / 2 > max_bytes {
        Err(ErrorModel::TooLarge { bytes: digits.len() / 2, max_bytes })
    } else if !all_hex_digits(digits) {
        Err(ErrorModel::InvalidDigit { position: first_invalid(text) as nat })
    } else {
        Ok(bytes_of_digits(digits))
    }
}

/// The hex text of a byte sequence: two lowercase digits for each byte, and
/// one space between neighbours.
pub open spec fn hex_text(bytes: Seq<u8>) -> Seq<char>
    decreases bytes.len(),
{
    if bytes.len() == 0 {
        Seq::empty()
    } else if bytes.len() == 1 {
        seq![hex_char(bytes[0] as int / 16), hex_char(bytes[0] as int % 16)]
    } else {
        hex_text(bytes.drop_last()) + seq![
            ' ',
            hex_char(bytes.last() as int / 16),
            hex_char(bytes.last() as int % 16),
        ]
    }
}

/// Whether `text` is hex text for at least one byte and at most
/// [`MAX_HEX_DIGITS`] digits.
pub open spec fn is_hex_text(text: Seq<char>) -> bool {
    let digits = significant(text);
    &&& digits.len() > 0
    &&& digits.len() % 2 == 0
    &&& digits.len() <= MAX_HEX_DIGITS
    &&& all_hex_digits(digits)
}

/// A text never has more characters than its UTF-8 encoding has bytes.
proof fn lemma_chars_at_most_bytes(chars: Seq<char>)
    ensures
        chars.len() <= encode_utf8(chars).len(),
    decreases chars.len(),
{
    if chars.len() > 0 {
        lemma_chars_at_most_bytes(chars.drop_first());
    }
}

/// Taking one more character of `text` into account adds it to the
/// significant characters unless it is a separator.
proof fn lemma_significant_step(text: Seq<char>, idx: int)
    requires
        0 <= idx < text.len(),
    ensures
        significant(text.subrange(0, idx + 1)) == if is_separator(text[idx]) {
            significant(text.subrange(0, idx))
        } else {
            significant(text.subrange(0, idx)).push(text[idx])
        },
{
    reveal(Seq::filter);
    assert(text.subrange(0, idx + 1).drop_last() == text.subrange(0, idx));
}

/// Text whose first `k` characters are separators and hex digits either
/// holds a first character that is neither, or is made of such characters
/// altogether.
proof fn lemma_scan_for_invalid(text: Seq<char>, k: int)
    requires
        0 <= k <= text.len(),
        forall|j: int|
            0 <= j < k ==> is_separator(#[trigger] text[j]) || hex_digit_value(text[j]) is Some,
        all_hex_digits(significant(text.subrange(0, k))),
    ensures
        all_hex_digits(significant(text)) || exists|p: int| is_first_invalid(text, p),
    decreases text.len() - k,
{
    if k == text.len() {
        assert(text.subrange(0, k) == text);
    } else if is_separator(text[k]) || hex_digit_value(text[k]) is Some {
        lemma_significant_step(text, k);
        lemma_scan_for_invalid(text, k + 1);
    } else {
        assert(is_first_invalid(text, k));
    }
}

/// Where the digits of hex text are not all hex digits, [`first_invalid`] is
/// the place of the first character that is neither a separator nor a hex
/// digit.
pub proof fn lemma_first_invalid_is_found(text: Seq<char>)
    requires
        !all_hex_digits(significant(text)),
    ensures
        is_first_invalid(text, first_invalid(text)),
{
    lemma_scan_for_invalid(text, 0);
}

/// There is at most one such place.
pub proof fn lemma_first_invalid_is_unique(text: Seq<char>, position: int)
    requires
        is_first_invalid(text, position),
    ensures
        first_invalid(text) == position,
{
}

/// The hex digits of a byte sequence, two for each byte, without anything
/// between them.
pub open spec fn hex_digits_of(bytes: Seq<u8>) -> Seq<char> {
    Seq::new(
        2 * bytes.len(),
        |i: int|
            if i % 2 == 0 {
                hex_char(bytes[i / 2] as int / 16)
            } else {
                hex_char(bytes[i / 2] as int % 16)
            },
    )
}

/// One more byte adds a space, unless it is the first byte, and two digits
/// to the hex text.
proof fn lemma_hex_text_push(bytes: Seq<u8>, byte: u8)
    ensures
        hex_text(bytes.push(byte)) == hex_text(bytes) + (if bytes.len() == 0 {
            Seq::<char>::empty()
        } else {
            seq![' ']
        }) + seq![hex_char(byte as int / 16), hex_char(byte as int % 16)],
{
    assert(bytes.push(byte).drop_last() == bytes);
}

/// What is significant in the hex text of a byte sequence is its digits.
proof fn lemma_significant_hex_text(bytes: Seq<u8>)
    ensures
        significant(hex_text(bytes)) == hex_digits_of(bytes),
    decreases bytes.len(),
{
    if bytes.len() > 0 {
        let shorter = bytes.drop_last();
        let byte = bytes.last();
        let high = hex_char(byte as int / 16);
        let low = hex_char(byte as int % 16);
        let gap = if shorter.len() == 0 {
            Seq::<char>::empty()
        } else {
            seq![' ']
        };
        assert(shorter.push(byte) == bytes);
        lemma_hex_text_push(shorter, byte);
        lemma_significant_hex_text(shorter);
        assert(significant(gap) == Seq::<char>::empty()) by {
            if shorter.len() > 0 {
                lemma_significant_step(gap, 0);
                assert(gap.subrange(0, 1) == gap);
            }
        }
        assert(significant(seq![high, low]) == seq![high, low]) by {
            let pair = seq![high, low];
            lemma_significant_step(pair, 0);
            lemma_significant_step(pair, 1);
            assert(pair.subrange(0, 2) == pair);
        }
    }
}

/// Parsing gives back the bytes that hex text was written from, as long as
/// that many bytes are allowed.
pub proof fn lemma_hex_round_trip(bytes: Seq<u8>, max_bytes: nat)
    requires
        bytes.len() <= max_bytes,
    ensures
        parsed_hex(hex_text(bytes), max_bytes) == Ok::<Seq<u8>, ErrorModel>(bytes),
{
    lemma_significant_hex_text(bytes);
    assert(bytes_of_digits(hex_digits_of(bytes)) == bytes);
}

/// A hex digit as [`hex_text`] writes it: a decimal digit or a lowercase
/// letter.
pub open spec fn is_lower_hex_digit(c: char) -> bool {
    '0' <= c <= '9' || 'a' <= c <= 'f'
}

/// Whether `text` is hex text in the form that [`hex_text`] writes: pairs of
/// lowercase hex digits with exactly one space between neighbours, and
/// nothing before the first pair or after the last.
pub open spec fn is_normalized_hex(text: Seq<char>) -> bool {
    text.len() == 0 || (text.len() % 3 == 2 && forall|i: int|
        0 <= i < text.len() ==> if i % 3 == 2 {
            #[trigger] text[i] == ' '
        } else {
            is_lower_hex_digit(text[i])
        })
}

/// How long the hex text of a byte sequence is, and which character stands
/// at each place.
proof fn lemma_hex_text_shape(bytes: Seq<u8>)
    ensures
        hex_text(bytes).len() == (if bytes.len() == 0 {
            0
        } else {
            3 * bytes.len() - 1
        }),
        forall|i: int|
            0 <= i < hex_text(bytes).len() ==> #[trigger] hex_text(bytes)[i] == (if i % 3 == 0 {
                hex_char(bytes[i / 3] as int / 16)
            } else if i % 3 == 1 {
                hex_char(bytes[i / 3] as int % 16)
            } else {
                ' '
            }),
    decreases bytes.len(),
{
    if bytes.len() > 1 {
        lemma_hex_text_shape(bytes.drop_last());
    }
}

/// What [`hex_text`] writes is normalized.
pub proof fn lemma_hex_text_is_normalized(bytes: Seq<u8>)
    ensures
        is_normalized_hex(hex_text(bytes)),
{
    lemma_hex_text_shape(bytes);
}

/// Normalized hex text is a fixed point: writing the bytes that it parses
/// to gives the same text again.
pub proof fn lemma_normalized_hex_is_reproduced(text: Seq<char>, max_bytes: nat)
    requires
        is_normalized_hex(text),
        (text.len() + 1) / 3 <= max_bytes,
    ensures
        parsed_hex(text, max_bytes) matches Ok(bytes) && hex_text(bytes) == text,
{
    let bytes = Seq::new(
        ((text.len() + 1) / 3) as nat,
        |k: int| byte_of_digits(text[3 * k], text[3 * k + 1]),
    );
    lemma_hex_text_shape(bytes);
    assert(hex_text(bytes) =~= text);
    lemma_hex_round_trip(bytes, max_bytes);
}

fn separator(c: char) -> (r: bool)
    ensures
        r == is_separator(c),
{
    let u: u32 = c as u32;
    (0x09 <= u && u <= 0x0d) || u == 0x20 || u == 0x85 || u == 0xa0 || u == 0x1680 || (0x2000 <= u
        && u <= 0x200a) || u == 0x2028 || u == 0x2029 || u == 0x202f || u == 0x205f || u == 0x3000
        || u == 0x3a || u == 0x2d
}

fn hex_digit(c: char) -> (r: Option<u8>)
    ensures
        r == hex_digit_value(c),
        r matches Some(v) ==> v < 16,
{
    let u: u32 = c as u32;
    if 0x30 <= u && u <= 0x39 {
        Some((u - 0x30) as u8)
    } else if 0x61 <= u && u <= 0x66 {
        Some((u - 0x61 + 10) as u8)
    } else if 0x41 <= u && u <= 0x46 {
        Some((u - 0x41 + 10) as u8)
    } else {
        None
    }
}

fn lower_hex_digit(nibble: u8) -> (c: char)
    requires
        nibble < 16,
    ensures
        c == hex_char(nibble as int),
{
    if nibble < 10 {
        (0x30 + nibble) as char
    } else {
        (0x57 + nibble) as char
    }
}

/// Counts the characters of `text` that are no separators.
fn count_significant(text: &str) -> (n: usize)
    ensures
        n == significant(text@).len(),
{
    let total: usize = text.as_bytes().len();
    let mut it = text.chars();
    let mut n: usize = 0;
    let ghost mut idx: int = 0;
    proof {
        lemma_chars_at_most_bytes(text@);
    }
    loop
        invariant
            0 <= idx <= text@.len() <= total,
            it.obeys_prophetic_iter_laws(),
            it.remaining() == text@.subrange(idx, text@.len() as int),
            n == significant(text@.subrange(0, idx)).len(),
            n <= idx,
        decreases text@.len() - idx,
    {
        broadcast use group_string_axioms;

        match it.next() {
            None => {
                assert(text@.subrange(0, idx) == text@);
                return n;
            },
            Some(c) => {
                proof {
                    lemma_significant_step(text@, idx);
                    idx = idx + 1;
                }
                if !separator(c) {
                    n = n + 1;
                }
            },
        }
    }
}

/// Parses hex text into bytes, allowing at most `max_bytes` of them.
///
/// White space, `:` and `-` may stand anywhere and are ignored. The number
/// of digits is checked before anything is allocated.
pub fn parse_hex_bounded(hex_str: &str, max_bytes: usize) -> (r: Result<Vec<u8>, NotificationError>)
    ensures
        match parsed_hex(hex_str@, max_bytes as nat) {
            Ok(bytes) => r matches Ok(v) && v@ == bytes,
            Err(e) => r matches Err(x) && x@ == e,
        },
{
    let digits: usize = count_significant(hex_str);
    if digits % 2 != 0 {
        return Err(NotificationError::OddLength { digits });
    }
    let byte_count: usize = digits / 2;
    if byte_count > max_bytes {
        return Err(NotificationError::TooLarge { bytes: byte_count, max_bytes });
    }
    let total: usize = hex_str.as_bytes().len();
    let mut bytes: Vec<u8> = Vec::with_capacity(byte_count);
    let mut pending: Option<u8> = None;
    let mut it = hex_str.chars();
    let mut position: usize = 0;
    proof {
        lemma_chars_at_most_bytes(hex_str@);
    }
    loop
        invariant
            0 <= position <= hex_str@.len() <= total,
            it.obeys_prophetic_iter_laws(),
            it.remaining() == hex_str@.subrange(position as int, hex_str@.len() as int),
            forall|j: int|
                0 <= j < position ==> is_separator(#[trigger] hex_str@[j]) || hex_digit_value(
                    hex_str@[j],
                ) is Some,
            all_hex_digits(significant(hex_str@.subrange(0, position as int))),
            bytes@ == bytes_of_digits(significant(hex_str@.subrange(0, position as int))),
            pending is Some <==> significant(hex_str@.subrange(0, position as int)).len() % 2 == 1,
            pending matches Some(high) ==> Some(high) == hex_digit_value(
                significant(hex_str@.subrange(0, position as int)).last(),
            ),
            digits == significant(hex_str@).len(),
            digits % 2 == 0,
            digits / 2 <= max_bytes,
        decreases hex_str@.len() - position,
    {
        broadcast use group_string_axioms;

        let ghost before = significant(hex_str@.subrange(0, position as int));
        match it.next() {
            None => {
                assert(hex_str@.subrange(0, position as int) == hex_str@);
                return Ok(bytes);
            },
            Some(c) => {
                proof {
                    lemma_significant_step(hex_str@, position as int);
                }
                if !separator(c) {
                    match hex_digit(c) {
                        None => {
                            proof {
                                let rest = hex_str@.subrange(
                                    position + 1,
                                    hex_str@.len() as int,
                                );
                                assert(hex_str@.subrange(0, position + 1) + rest == hex_str@);
                                assert(significant(hex_str@)[before.len() as int] == c);
                                assert(is_first_invalid(hex_str@, position as int));
                            }
                            return Err(NotificationError::InvalidDigit { position });
                        },
                        Some(low) => {
                            match pending {
                                None => {
                                    pending = Some(low);
                                },
                                Some(high) => {
                                    bytes.push(16 * high + low);
                                    pending = None;
                                },
                            }
                        },
                    }
                }
                position = position + 1;
            },
        }
    }
}

/// Writes bytes as hex text: two lowercase digits for each byte, one space
/// between neighbours.
pub fn to_hex(bytes: &[u8]) -> (r: String)
    ensures
        r@ == hex_text(bytes@),
{
    let mut out = String::new();
    let mut i: usize = 0;
    while i < bytes.len()
        invariant
            0 <= i <= bytes@.len(),
            out@ == hex_text(bytes@.subrange(0, i as int)),
        decreases bytes@.len() - i,
    {
        let b: u8 = bytes[i];
        if i > 0 {
            out.push(' ');
        }
        out.push(lower_hex_digit(b / 16));
        out.push(lower_hex_digit(b % 16));
        proof {
            assert(bytes@.subrange(0, i + 1).drop_last() == bytes@.subrange(0, i as int));
        }
        i = i + 1;
    }
    assert(bytes@.subrange(0, i as int) == bytes@);
    out
}

/// Tells whether `input` is hex text for at least one byte: after its
/// separators are taken out it is not empty, has an even number of
/// characters, at most [`MAX_HEX_DIGITS`] of them, and all are hex digits.
pub fn is_hex(input: &str) -> (r: bool)
    ensures
        r == is_hex_text(input@),
{
    let total: usize = input.as_bytes().len();
    let mut it = input.chars();
    let mut n: usize = 0;
    let ghost mut idx: int = 0;
    proof {
        lemma_chars_at_most_bytes(input@);
    }
    loop
        invariant
            0 <= idx <= input@.len() <= total,
            it.obeys_prophetic_iter_laws(),
            it.remaining() == input@.subrange(idx, input@.len() as int),
            n == significant(input@.subrange(0, idx)).len(),
            n <= idx,
            all_hex_digits(significant(input@.subrange(0, idx))),
        decreases input@.len() - idx,
    {
        broadcast use group_string_axioms;

        let ghost before = significant(input@.subrange(0, idx));
        match it.next() {
            None => {
                assert(input@.subrange(0, idx) == input@);
                return n > 0 && n % 2 == 0 && n <= MAX_HEX_DIGITS;
            },
            Some(c) => {
                proof {
                    lemma_significant_step(input@, idx);
                }
                if !separator(c) {
                    if hex_digit(c).is_none() {
                        proof {
                            let rest = input@.subrange(idx + 1, input@.len() as int);
                            assert(input@.subrange(0, idx + 1) + rest == input@);
                            assert(significant(input@)[before.len() as int] == c);
                        }
                        return false;
                    }
                    n = n + 1;
                }
                proof {
                    idx = idx + 1;
                }
            },
        }
    }
}

} // verus!
