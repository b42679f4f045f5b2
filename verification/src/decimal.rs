//! Decimal numbers as text: reading them within bounds, and writing them.

use crate::error::{ErrorModel, NotificationError};
use vstd::prelude::*;
use vstd::std_specs::iter::IteratorSpec;
use vstd::string::*;

verus! {

/// The value of a decimal digit; `None` for any other character.
pub open spec fn decimal_digit_value(c: char) -> Option<nat> {
    if '0' <= c <= '9' {
        Some((c as u32 - 0x30) as nat)
    } else {
        None
    }
}

/// Every character is a decimal digit.
pub open spec fn all_decimal_digits(digits: Seq<char>) -> bool {
    forall|i: int| 0 <= i < digits.len() ==> decimal_digit_value(#[trigger] digits[i]) is Some
}

/// The number that a run of decimal digits stands for.
pub open spec fn decimal_value(digits: Seq<char>) -> nat
    recommends
        all_decimal_digits(digits),
    decreases digits.len(),
{
    if digits.len() == 0 {
        0
    } else {
        10 * decimal_value(digits.drop_last()) + decimal_digit_value(digits.last()).unwrap()
    }
}

/// The text without the one `+` that may stand in front of a number.
pub open spec fn unsigned_part(text: Seq<char>) -> Seq<char> {
    if text.len() > 0 && text[0] == '+' {
        text.drop_first()
    } else {
        text
    }
}

/// Whether `text` is a decimal number: at least one decimal digit and
/// nothing else, but for one `+` that may stand in front.
pub open spec fn is_decimal(text: Seq<char>) -> bool {
    unsigned_part(text).len() > 0 && all_decimal_digits(unsigned_part(text))
}

/// What reading `text` as a number within `min ..= max` gives. A number of
/// any size is a number: one that is too large is out of range.
pub open spec fn parsed_bounded(text: Seq<char>, min: nat, max: nat, label: Seq<char>) -> Result<
    nat,
    ErrorModel,
> {
    if !is_decimal(text) {
        Err(ErrorModel::NotANumber { label })
    } else {
        let value = decimal_value(unsigned_part(text));
        if value < min || value > max {
            Err(ErrorModel::OutOfRange { label, min, max })
        } else {
            Ok(value)
        }
    }
}

/// The decimal digit of a value below ten.
pub open spec fn decimal_char(digit: nat) -> char
    recommends
        digit < 10,
{
    (0x30 + digit) as char
}

/// A number written in decimal, without leading zeros.
pub open spec fn decimal_text(n: nat) -> Seq<char>
    decreases n,
{
    if n < 10 {
        seq![decimal_char(n)]
    } else {
        decimal_text(n / 10).push(decimal_char(n % 10))
    }
}

/// A number written in decimal is made of decimal digits, at least one of
/// them, and they stand for that number.
proof fn lemma_decimal_text_value(n: nat)
    ensures
        decimal_text(n).len() > 0,
        all_decimal_digits(decimal_text(n)),
        decimal_value(decimal_text(n)) == n,
    decreases n,
{
    let text = decimal_text(n);
    if n < 10 {
        assert(decimal_value(text.drop_last()) == 0);
    } else {
        lemma_decimal_text_value(n / 10);
        assert(text.drop_last() == decimal_text(n / 10));
    }
}

/// Reading a number that was written in decimal gives the number back where
/// it lies within the bounds, and reports it as out of range where it does
/// not.
pub proof fn lemma_decimal_round_trip(n: nat, min: nat, max: nat, label: Seq<char>)
    ensures
        parsed_bounded(decimal_text(n), min, max, label) == if min <= n <= max {
            Ok::<nat, ErrorModel>(n)
        } else {
            Err::<nat, ErrorModel>(ErrorModel::OutOfRange { label, min, max })
        },
{
    lemma_decimal_text_value(n);
}

/// What a scan of a text for a number has found.
enum Scanned {
    /// The text is no decimal number.
    Malformed,
    /// The text is a decimal number above the limit of the scan.
    Above,
    /// The text is this decimal number.
    Value(u32),
}

fn decimal_digit(c: char) -> (r: Option<u32>)
    ensures
        match decimal_digit_value(c) {
            Some(d) => r == Some(d as u32) && d < 10,
            None => r is None,
        },
{
    let u: u32 = c as u32;
    if 0x30 <= u && u <= 0x39 {
        Some(u - 0x30)
    } else {
        None
    }
}

/// Reads `text` as a decimal number, telling numbers above `limit` apart
/// without computing them.
fn scan_decimal(text: &str, limit: u32) -> (r: Scanned)
    requires
        limit <= 0xffff,
    ensures
        r is Malformed <==> !is_decimal(text@),
        r is Above <==> is_decimal(text@) && decimal_value(unsigned_part(text@)) > limit,
        r matches Scanned::Value(v) ==> v == decimal_value(unsigned_part(text@)),
{
    broadcast use group_string_axioms;

    let ghost digits = unsigned_part(text@);
    let mut it = text.chars();
    let mut cur: Option<char> = it.next();
    match cur {
        Some(c) => {
            if c == '+' {
                cur = it.next();
            }
        },
        None => {},
    }
    let ghost mut k: int = 0;
    let mut acc: u32 = 0;
    let mut over: bool = false;
    let mut any: bool = false;
    loop
        invariant
            digits == unsigned_part(text@),
            0 <= k <= digits.len(),
            it.obeys_prophetic_iter_laws(),
            k < digits.len() ==> cur == Some(digits[k]) && it.remaining() == digits.subrange(
                k + 1,
                digits.len() as int,
            ),
            k == digits.len() ==> cur is None,
            all_decimal_digits(digits.subrange(0, k)),
            any <==> k > 0,
            !over ==> acc == decimal_value(digits.subrange(0, k)) && acc <= limit,
            over ==> decimal_value(digits.subrange(0, k)) > limit,
            limit <= 0xffff,
        decreases digits.len() - k,
    {
        match cur {
            None => {
                assert(digits.subrange(0, k) == digits);
                if !any {
                    return Scanned::Malformed;
                } else if over {
                    return Scanned::Above;
                } else {
                    return Scanned::Value(acc);
                }
            },
            Some(c) => {
                match decimal_digit(c) {
                    None => {
                        return Scanned::Malformed;
                    },
                    Some(d) => {
                        assert(digits.subrange(0, k + 1).drop_last() == digits.subrange(0, k));
                        if !over {
                            acc = acc * 10 + d;
                            if acc > limit {
                                over = true;
                            }
                        }
                        any = true;
                        cur = it.next();
                        proof {
                            k = k + 1;
                        }
                    },
                }
            },
        }
    }
}

/// Reads a decimal number and checks that it lies in `min ..= max`.
///
/// The text is one or more decimal digits, with at most one `+` in front.
/// `context` names the field for the error.
pub fn parse_u8_bounded(s: &str, min: u8, max: u8, context: &str) -> (r: Result<
    u8,
    NotificationError,
>)
    ensures
        match parsed_bounded(s@, min as nat, max as nat, context@) {
            Ok(value) => r == Ok::<u8, NotificationError>(value as u8) && value <= u8::MAX,
            Err(e) => r matches Err(x) && x@ == e,
        },
{
    match scan_decimal(s, 0xff) {
        Scanned::Malformed => Err(NotificationError::NotANumber { label: context.to_owned() }),
        Scanned::Above => Err(
            NotificationError::OutOfRange {
                label: context.to_owned(),
                min: min as u16,
                max: max as u16,
            },
        ),
        Scanned::Value(value) => {
            if value < min as u32 || value > max as u32 {
                Err(
                    NotificationError::OutOfRange {
                        label: context.to_owned(),
                        min: min as u16,
                        max: max as u16,
                    },
                )
            } else {
                Ok(value as u8)
            }
        },
    }
}

/// Reads a decimal number and checks that it lies in `min ..= max`.
///
/// The text is one or more decimal digits, with at most one `+` in front.
/// `context` names the field for the error.
pub fn parse_u16_bounded(s: &str, min: u16, max: u16, context: &str) -> (r: Result<
    u16,
    NotificationError,
>)
    ensures
        match parsed_bounded(s@, min as nat, max as nat, context@) {
            Ok(value) => r == Ok::<u16, NotificationError>(value as u16) && value <= u16::MAX,
            Err(e) => r matches Err(x) && x@ == e,
        },
{
    match scan_decimal(s, 0xffff) {
        Scanned::Malformed => Err(NotificationError::NotANumber { label: context.to_owned() }),
        Scanned::Above => Err(
            NotificationError::OutOfRange { label: context.to_owned(), min, max },
        ),
        Scanned::Value(value) => {
            if value < min as u32 || value > max as u32 {
                Err(NotificationError::OutOfRange { label: context.to_owned(), min, max })
            } else {
                Ok(value as u16)
            }
        },
    }
}

/// Appends `n`, written in decimal, to `out`.
pub(crate) fn push_decimal(out: &mut String, n: usize)
    ensures
        final(out)@ == old(out)@ + decimal_text(n as nat),
    decreases n,
{
    if n >= 10 {
        push_decimal(out, n / 10);
    }
    let digit: u8 = (n % 10) as u8;
    out.push((0x30 + digit) as char);
}

} // verus!
