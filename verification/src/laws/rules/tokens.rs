//! The rules of single tokens: which is taken where one is needed, and which error comes otherwise.

use crate::ast::SrcSpan;
use crate::error::{ErrorView, Fault, ParseErrorType};
use crate::grammar::basics::{
    error_at, expect_name, expect_one, expect_string, expect_upname, found, maybe_discard_name,
    maybe_name, maybe_upname, unexpected,
};
use crate::laws::rules::{
    at, begin, end, is_discard, is_mark, is_name, is_string, is_tok, is_upname, lemma_one,
};
use crate::model::Text;
use crate::stream::{Cursor, Toks};
use crate::token::{quoted, same_tok, Tok};
use vstd::prelude::*;

verus! {

/// Whether a keyword stands at a position.
pub open spec fn is_keyword(t: Toks, i: nat) -> bool {
    ||| is_tok(t, i, Tok::As)
    ||| is_tok(t, i, Tok::Assert)
    ||| is_tok(t, i, Tok::Case)
    ||| is_tok(t, i, Tok::Const)
    ||| is_tok(t, i, Tok::External)
    ||| is_tok(t, i, Tok::Fn)
    ||| is_tok(t, i, Tok::If)
    ||| is_tok(t, i, Tok::Import)
    ||| is_tok(t, i, Tok::Let)
    ||| is_tok(t, i, Tok::Opaque)
    ||| is_tok(t, i, Tok::Pub)
    ||| is_tok(t, i, Tok::Todo)
    ||| is_tok(t, i, Tok::Try)
    ||| is_tok(t, i, Tok::Tuple)
    ||| is_tok(t, i, Tok::Type)
}

/// Whether a name of any kind stands at a position.
pub open spec fn is_any_kind_of_name(t: Toks, i: nat) -> bool {
    &&& i < t.len()
    &&& t[i as int] matches Some(
        (_, Tok::Name { .. } | Tok::UpName { .. } | Tok::DiscardName { .. }, _),
    )
}

/// Where a name that starts with a lower case letter is needed, such a name is taken. Another name
/// is an error of its own, and so is a keyword; anything else is the error that a name was
/// expected.
pub proof fn where_a_name_is_needed(t: Toks, i: nat, text: Text)
    requires
        i < t.len(),
        t[i as int] is Some,
    ensures
        ({
            let step = expect_name(t, at(i));
            let location = span_at(t, i);
            let to = at(i + 1);
            &&& is_name(t, i, text) ==> step == found((begin(t, i), text, end(t, i)), to)
            &&& is_upname(t, i, text) || is_discard(t, i, text) ==> step == error_at::<
                (usize, Text, usize),
            >(ParseErrorType::IncorrectName, location, to)
            &&& is_keyword(t, i) ==> step == error_at::<(usize, Text, usize)>(
                ParseErrorType::UnexpectedReservedWord,
                location,
                to,
            )
            &&& !is_any_kind_of_name(t, i) && !is_keyword(t, i) ==> step == error_at::<
                (usize, Text, usize),
            >(ParseErrorType::ExpectedName, location, to)
        }),
{
}

/// Where the token at a position stands.
pub open spec fn span_at(t: Toks, i: nat) -> SrcSpan {
    SrcSpan { start: begin(t, i), end: end(t, i) }
}

/// Where a name that starts with an upper case letter is needed, such a name is taken. Another name
/// is an error of its own; anything else is the error that such a name was expected.
pub proof fn where_an_upper_case_name_is_needed(t: Toks, i: nat, text: Text)
    requires
        i < t.len(),
        t[i as int] is Some,
    ensures
        ({
            let step = expect_upname(t, at(i));
            let location = span_at(t, i);
            let to = at(i + 1);
            &&& is_upname(t, i, text) ==> step == found((begin(t, i), text, end(t, i)), to)
            &&& is_name(t, i, text) || is_discard(t, i, text) ==> step == error_at::<
                (usize, Text, usize),
            >(ParseErrorType::IncorrectUpName, location, to)
            &&& !is_any_kind_of_name(t, i) ==> step == error_at::<(usize, Text, usize)>(
                ParseErrorType::ExpectedUpName,
                location,
                to,
            )
        }),
{
}

/// Where a string is needed, it is taken. The error in its absence is that at the token behind.
pub proof fn where_a_string_is_needed(t: Toks, i: nat, text: Text)
    requires
        i < t.len(),
    ensures
        is_string(t, i, text) ==> expect_string(t, at(i)) == found(
            (begin(t, i), text, end(t, i)),
            at(i + 1),
        ),
        !(t[i as int] matches Some((_, Tok::String { .. }, _))) ==> expect_string(t, at(i)).res
            == Err::<(usize, Text, usize), _>(
            if i + 1 < t.len() && t[i + 1int] is Some {
                ErrorView {
                    fault: Fault::Expected(seq!["a string"@]),
                    location: span_at(t, i + 1),
                }
            } else {
                ErrorView {
                    fault: Fault::Plain(ParseErrorType::UnexpectedEOF),
                    location: SrcSpan { start: 0, end: 0 },
                }
            },
        ),
{
}

/// Where a mark or a keyword is needed, it is taken. Any other token is an unexpected one, located
/// where it is, and the error says which one was expected, in quotes.
pub proof fn where_a_mark_is_needed(t: Toks, i: nat, tok: Tok)
    requires
        is_mark(tok),
        i < t.len(),
        t[i as int] is Some,
    ensures
        is_tok(t, i, tok) ==> expect_one(t, at(i), tok) == found(
            (begin(t, i), end(t, i)),
            at(i + 1),
        ),
        !is_tok(t, i, tok) ==> {
            let step = expect_one(t, at(i), tok);
            &&& step.res == Err::<(usize, usize), _>(
                ErrorView { fault: Fault::Expected(seq![quoted(tok)]), location: span_at(t, i) },
            )
            &&& step.to == at(i + 1)
        },
{
    lemma_one(t, i, tok);
}

/// Where anything is needed and there is no token any more, or it could not be read, the error is
/// that the input ends.
pub proof fn where_the_input_ends(t: Toks, c: Cursor, tok: Tok, expected: Seq<Text>)
    requires
        c.lost || c.at >= t.len() || t[c.at as int] is None,
    ensures
        ({
            let error = error_at::<(usize, Text, usize)>(
                ParseErrorType::UnexpectedEOF,
                SrcSpan { start: 0, end: 0 },
                c,
            ).res;
            &&& expect_name(t, c).res == error
            &&& expect_upname(t, c).res == error
            &&& unexpected::<(usize, Text, usize)>(t, c, expected).res == error
            &&& expect_one(t, c, tok).res matches Err(other) && Err::<(usize, Text, usize), _>(
                other,
            ) == error
        }),
{
}

/// A name that may be there is taken if it is of the right kind.
pub proof fn where_a_name_may_be(t: Toks, i: nat, text: Text)
    ensures
        is_name(t, i, text) ==> maybe_name(t, at(i)) == Some((begin(t, i), text, end(t, i))),
        is_upname(t, i, text) ==> maybe_upname(t, at(i)) == Some((begin(t, i), text, end(t, i))),
        is_discard(t, i, text) ==> maybe_discard_name(t, at(i)) == Some(
            (begin(t, i), text, end(t, i)),
        ),
        maybe_name(t, at(i)) matches Some((_, name, _)) ==> is_name(t, i, name),
        maybe_upname(t, at(i)) matches Some((_, name, _)) ==> is_upname(t, i, name),
        maybe_discard_name(t, at(i)) matches Some((_, name, _)) ==> is_discard(t, i, name),
{
}

/// Two marks or keywords are the same token just if they are equal, and two tokens with text just
/// if they are of one kind and have the same text.
pub proof fn which_tokens_are_the_same(a: Tok, b: Tok, x: String, y: String)
    ensures
        is_mark(a) || is_mark(b) ==> (same_tok(a, b) <==> a == b),
        same_tok(Tok::Name { name: x }, Tok::Name { name: y }) <==> x@ == y@,
        same_tok(Tok::UpName { name: x }, Tok::UpName { name: y }) <==> x@ == y@,
        same_tok(Tok::DiscardName { name: x }, Tok::DiscardName { name: y }) <==> x@ == y@,
        same_tok(Tok::Int { value: x }, Tok::Int { value: y }) <==> x@ == y@,
        same_tok(Tok::Float { value: x }, Tok::Float { value: y }) <==> x@ == y@,
        same_tok(Tok::String { value: x }, Tok::String { value: y }) <==> x@ == y@,
        !same_tok(Tok::Name { name: x }, Tok::UpName { name: y }),
        !same_tok(Tok::Name { name: x }, Tok::DiscardName { name: y }),
        !same_tok(Tok::UpName { name: x }, Tok::DiscardName { name: y }),
        !same_tok(Tok::Int { value: x }, Tok::Float { value: y }),
        !same_tok(Tok::Int { value: x }, Tok::String { value: y }),
        !same_tok(Tok::Float { value: x }, Tok::String { value: y }),
{
}

} // verus!
