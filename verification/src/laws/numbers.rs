//! Laws of decimal numbers.

use crate::model::Text;
use crate::number::{decimal, digits_value, unsigned, without_underscores};
use vstd::prelude::*;

verus! {

/// Whether a text is made of decimal digits.
pub open spec fn is_digits(text: Text) -> bool {
    forall|i: int| 0 <= i < text.len() ==> '0' <= #[trigger] text[i] <= '9'
}

proof fn lemma_digits_stay(text: Text)
    requires
        is_digits(text),
    ensures
        without_underscores(text) == text,
        unsigned(text) == text,
        digits_value(text) is Some,
    decreases text.len(),
{
    reveal(Seq::filter);
    if text.len() > 0 {
        let before = text.drop_last();
        assert forall|i: int| 0 <= i < before.len() implies '0' <= #[trigger] before[i] <= '9' by {
            assert(before[i] == text[i]);
        }
        lemma_digits_stay(before);
        assert('0' <= text[text.len() - 1] <= '9');
        assert(before.push(text.last()) =~= text);
        assert('0' <= text[0] <= '9');
    } else {
        assert(without_underscores(text) =~= text);
    }
}

/// A single digit is its own value.
pub proof fn a_digit_is_its_value(ch: char)
    requires
        '0' <= ch <= '9',
    ensures
        decimal(seq![ch]) == Some((ch as int - '0' as int) as u64),
{
    let text = seq![ch];
    lemma_digits_stay(text);
    assert(text.drop_last() =~= Seq::empty());
    assert(digits_value(text.drop_last()) == Some(0nat));
}

/// A number with one digit more is ten times the number plus the digit, if that fits in 64 bits,
/// and otherwise too large.
pub proof fn one_digit_more(text: Text, ch: char, value: u64)
    requires
        is_digits(text),
        '0' <= ch <= '9',
        decimal(text) == Some(value),
    ensures
        ({
            let longer = 10 * value + (ch as int - '0' as int);
            decimal(text.push(ch)) == if longer <= u64::MAX {
                Some(longer as u64)
            } else {
                None
            }
        }),
{
    let longer = text.push(ch);
    assert forall|i: int| 0 <= i < longer.len() implies '0' <= #[trigger] longer[i] <= '9' by {
        if i < text.len() {
            assert(longer[i] == text[i]);
        }
    }
    lemma_digits_stay(text);
    lemma_digits_stay(longer);
    assert(longer.drop_last() =~= text);
}

/// A number that is too large stays so with one digit more.
pub proof fn too_large_stays_so(text: Text, ch: char)
    requires
        is_digits(text),
        text.len() > 0,
        '0' <= ch <= '9',
        decimal(text) is None,
    ensures
        decimal(text.push(ch)) is None,
{
    let longer = text.push(ch);
    assert forall|i: int| 0 <= i < longer.len() implies '0' <= #[trigger] longer[i] <= '9' by {
        if i < text.len() {
            assert(longer[i] == text[i]);
        }
    }
    lemma_digits_stay(text);
    lemma_digits_stay(longer);
    assert(longer.drop_last() =~= text);
}

/// An underscore may stand anywhere in a number, and is of no account.
pub proof fn an_underscore_is_of_no_account(a: Text, b: Text)
    ensures
        decimal(a + seq!['_'] + b) == decimal(a + b),
{
    lemma_of_two(a + seq!['_'], b);
    lemma_of_two(a, seq!['_']);
    lemma_of_two(a, b);
    lemma_of_one('_');
    assert(without_underscores(a) + Seq::empty() =~= without_underscores(a));
}

/// A plus sign may stand before the digits of a number, and is of no account.
pub proof fn a_plus_sign_is_of_no_account(text: Text)
    requires
        is_digits(text),
    ensures
        decimal(seq!['+'] + text) == decimal(text),
{
    lemma_of_two(seq!['+'], text);
    lemma_of_one('+');
    lemma_digits_stay(text);
    assert((seq!['+'] + text).drop_first() =~= text);
}

/// A text is no number if it holds anything but digits and underscores, except for a plus sign with
/// nothing but underscores before it.
pub proof fn what_is_no_number(text: Text, i: int, j: int)
    requires
        0 <= i < text.len(),
        !('0' <= text[i] <= '9'),
        text[i] != '_',
        text[i] == '+' ==> 0 <= j < i && text[j] != '_',
    ensures
        decimal(text) is None,
{
    let plain = without_underscores(text);
    lemma_kept(text, i);
    let k = without_underscores(text.take(i)).len() as int;
    assert(plain[k] == text[i]);
    if text[i] == '+' {
        lemma_kept(text.take(i), j);
        assert(k > 0);
    }
    let digits = unsigned(plain);
    if digits.len() < plain.len() {
        assert(k > 0);
        assert(digits[k - 1] == plain[k]);
        lemma_no_value(digits, k - 1);
    } else {
        lemma_no_value(digits, k);
    }
}

/// A text without any digit is no number.
pub proof fn no_number_without_digits(text: Text)
    requires
        forall|i: int| 0 <= i < text.len() ==> !('0' <= #[trigger] text[i] <= '9'),
    ensures
        decimal(text) is None,
{
    lemma_still_without_digits(text);
    let plain = without_underscores(text);
    let digits = unsigned(plain);
    if digits.len() > 0 {
        assert(digits.last() == plain[plain.len() - 1]);
        lemma_no_value(digits, digits.len() - 1);
    }
}

proof fn lemma_still_without_digits(text: Text)
    requires
        forall|i: int| 0 <= i < text.len() ==> !('0' <= #[trigger] text[i] <= '9'),
    ensures
        forall|i: int|
            0 <= i < without_underscores(text).len() ==> !('0' <= #[trigger] without_underscores(
                text,
            )[i] <= '9'),
    decreases text.len(),
{
    reveal(Seq::filter);
    if text.len() > 0 {
        let before = text.drop_last();
        assert forall|i: int| 0 <= i < before.len() implies !('0' <= #[trigger] before[i] <= '9') by {
            assert(before[i] == text[i]);
        }
        lemma_still_without_digits(before);
        assert(!('0' <= text[text.len() - 1] <= '9'));
        let plain = without_underscores(text);
        let shorter = without_underscores(before);
        assert forall|i: int| 0 <= i < plain.len() implies !('0' <= #[trigger] plain[i] <= '9') by {
            if i < shorter.len() {
                assert(plain[i] == shorter[i]);
            }
        }
    }
}

proof fn lemma_of_one(ch: char)
    ensures
        without_underscores(seq![ch]) == if ch == '_' {
            Seq::empty()
        } else {
            seq![ch]
        },
{
    reveal(Seq::filter);
    assert(seq![ch].drop_last() =~= Seq::empty());
    assert(without_underscores(Seq::empty()) =~= Seq::empty());
    assert(Seq::<char>::empty().push(ch) =~= seq![ch]);
}

proof fn lemma_of_two(a: Text, b: Text)
    ensures
        without_underscores(a + b) == without_underscores(a) + without_underscores(b),
    decreases b.len(),
{
    reveal(Seq::filter);
    if b.len() > 0 {
        lemma_of_two(a, b.drop_last());
        assert((a + b).drop_last() =~= a + b.drop_last());
        assert((a + b).last() == b.last());
        assert(without_underscores(a + b) =~= without_underscores(a) + without_underscores(b));
    } else {
        assert(a + b =~= a);
        assert(without_underscores(b) =~= Seq::empty());
        assert(without_underscores(a) + Seq::empty() =~= without_underscores(a));
    }
}

proof fn lemma_kept(text: Text, i: int)
    requires
        0 <= i < text.len(),
        text[i] != '_',
    ensures
        ({
            let before = without_underscores(text.take(i)).len();
            &&& before < without_underscores(text).len()
            &&& without_underscores(text)[before as int] == text[i]
        }),
{
    let before = text.take(i);
    let here = seq![text[i]];
    let behind = text.skip(i + 1);
    lemma_of_one(text[i]);
    lemma_of_two(before, here);
    lemma_of_two(before + here, behind);
    assert(before + here + behind =~= text);
}

proof fn lemma_no_value(digits: Text, k: int)
    requires
        0 <= k < digits.len(),
        !('0' <= digits[k] <= '9'),
    ensures
        digits_value(digits) is None,
    decreases digits.len(),
{
    if k < digits.len() - 1 {
        lemma_no_value(digits.drop_last(), k);
    }
}

} // verus!
