//! Numbers that are written as decimal digits.

use crate::model::Text;
use vstd::prelude::*;

verus! {

/// A text without its underscores.
pub open spec fn without_underscores(text: Text) -> Text {
    text.filter(|ch: char| ch != '_')
}

/// The value of a decimal digit.
pub open spec fn digit_value(ch: char) -> Option<nat> {
    if '0' <= ch <= '9' {
        Some((ch as int - '0' as int) as nat)
    } else {
        None
    }
}

/// The value of a row of decimal digits, none if it holds anything else.
pub open spec fn digits_value(digits: Text) -> Option<nat>
    decreases digits.len(),
{
    if digits.len() == 0 {
        Some(0)
    } else {
        match (digits_value(digits.drop_last()), digit_value(digits.last())) {
            (Some(high), Some(low)) => Some(10 * high + low),
            _ => None,
        }
    }
}

/// The digits of a number, behind the plus sign that may stand before them.
pub open spec fn unsigned(text: Text) -> Text {
    if text.len() > 0 && text[0] == '+' {
        text.drop_first()
    } else {
        text
    }
}

/// The number that a text stands for, if it has at least one digit and fits in 64 bits. Underscores
/// are of no account, and a plus sign may stand before the first digit.
pub open spec fn decimal(text: Text) -> Option<u64> {
    let digits = unsigned(without_underscores(text));
    if digits.len() > 0 {
        fitting(digits_value(digits))
    } else {
        None
    }
}

/// A value, if it fits in 64 bits.
pub open spec fn fitting(value: Option<nat>) -> Option<u64> {
    match value {
        Some(v) => if v <= u64::MAX {
            Some(v as u64)
        } else {
            None
        },
        None => None,
    }
}

/// Ten times a number plus a digit, if it fits in 64 bits.
fn with_digit(high: Option<u64>, ch: char) -> (value: Option<u64>)
    ensures
        forall|digits: Text|
            fitting(#[trigger] digits_value(digits)) == high ==> fitting(
                digits_value(digits.push(ch)),
            ) == value,
{
    proof {
        assert forall|digits: Text| #[trigger] digits_value(digits) == digits_value(
            digits.push(ch).drop_last(),
        ) by {
            assert(digits.push(ch).drop_last() =~= digits);
        }
    }
    if '0' <= ch && ch <= '9' {
        let low: u64 = ch as u64 - '0' as u64;
        match high {
            None => None,
            Some(value) => if value <= (u64::MAX - low) / 10 {
                Some(10 * value + low)
            } else {
                None
            },
        }
    } else {
        None
    }
}

/// The number that a text stands for.
pub fn parse_decimal(text: &str) -> (number: Option<u64>)
    ensures
        number == decimal(text@),
{
    let mut signed: bool = false;
    let mut empty: bool = true;
    let mut value: Option<u64> = Some(0);
    let ghost mut plain = Seq::<char>::empty();
    for ch in iter: text.chars()
        invariant
            iter.seq() == text@,
            plain == without_underscores(text@.take(iter.index())),
            signed == (plain.len() > 0 && plain[0] == '+'),
            empty == (unsigned(plain).len() == 0),
            value == fitting(digits_value(unsigned(plain))),
    {
        proof {
            let i = iter.index();
            assert(text@.take(i + 1).drop_last() =~= text@.take(i));
            reveal(Seq::filter);
        }
        if ch != '_' {
            if ch == '+' && !signed && empty {
                signed = true;
                assert(plain.push(ch).drop_first() =~= plain);
            } else {
                assert(unsigned(plain.push(ch)) =~= unsigned(plain).push(ch));
                value = with_digit(value, ch);
                empty = false;
            }
            proof {
                plain = plain.push(ch);
            }
        }
    }
    assert(text@.take(text@.len() as int) =~= text@);
    if empty {
        None
    } else {
        value
    }
}

} // verus!
