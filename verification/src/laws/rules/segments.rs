//! The rules of segments of bit strings.

use crate::ast::SrcSpan;
use crate::error::ParseErrorType;
use crate::grammar::basics::{error_at, found, span, Step};
use crate::grammar::segments::{keyword_option, segment, segment_option, segment_option_in};
use crate::laws::places::{advances, moves};
use crate::laws::places::segments::segment_option_is_found;
use crate::laws::rules::{at, begin, end, is_int, is_name, is_tok, lemma_listed, listed, Row};
use crate::model::{SegmentOptionView, SegmentView, Text};
use crate::stream::{Cursor, Toks};
use crate::token::Tok;
use vstd::prelude::*;

verus! {

/// A value without options is a segment, located where the value is.
pub proof fn a_segment_without_options<V>(
    first: Step<Option<V>>,
    arg: spec_fn(Cursor) -> Step<V>,
    number: spec_fn(Text, usize, usize) -> V,
    location: spec_fn(V) -> SrcSpan,
    t: Toks,
    v: V,
    j: nat,
)
    requires
        first == found(Some(v), at(j)),
        !is_tok(t, j, Tok::Colon),
    ensures
        segment(first, arg, number, location, t) == found(
            Some(
                SegmentView {
                    location: span(location(v).start, location(v).end),
                    value: Box::new(v),
                    options: Seq::empty(),
                },
            ),
            at(j),
        ),
{
}

/// A value with options behind a colon, which have minus signs between them, is a segment with
/// these options in their order, located from the start of the value to the end of the last option.
pub proof fn a_segment_with_options<V>(
    first: Step<Option<V>>,
    arg: spec_fn(Cursor) -> Step<V>,
    number: spec_fn(Text, usize, usize) -> V,
    location: spec_fn(V) -> SrcSpan,
    t: Toks,
    v: V,
    j: nat,
    row: Row<SegmentOptionView<V>>,
    k: nat,
)
    requires
        first == found(Some(v), at(j)),
        is_tok(t, j, Tok::Colon),
        listed(t, segment_option_in(arg, number, t), Tok::Minus, j + 1, k, row),
        row.things.len() > 0,
        k == row.stops.last(),
        !is_tok(t, k, Tok::Minus),
        forall|d: Cursor| j <= d.at <= t.len() ==> moves(t, d, #[trigger] arg(d)),
    ensures
        segment(first, arg, number, location, t) == found(
            Some(
                SegmentView {
                    location: span(location(v).start, row.things.last().location().end),
                    value: Box::new(v),
                    options: row.things,
                },
            ),
            at(k),
        ),
{
    let p = segment_option_in(arg, number, t);
    assert forall|d: Cursor| j + 1 <= d.at <= t.len() implies #[trigger] p(d) == p(d) && advances(
        t,
        d,
        p(d),
    ) by {
        segment_option_is_found(arg, number, t, d);
    }
    lemma_listed(t, p, p, Tok::Minus, j + 1, k, row);
}

/// A number is an option: the size, in its short form.
pub proof fn a_number_is_a_size<V>(
    arg: spec_fn(Cursor) -> Step<V>,
    number: spec_fn(Text, usize, usize) -> V,
    t: Toks,
    i: nat,
    value: Text,
)
    requires
        is_int(t, i, value),
    ensures
        segment_option(arg, number, t, at(i)) == found(
            Some(
                SegmentOptionView::Size {
                    location: span(begin(t, i), end(t, i)),
                    value: Box::new(number(value, begin(t, i), end(t, i))),
                    short_form: true,
                },
            ),
            at(i + 1),
        ),
{
}

/// `size` and `unit` with an argument in parentheses are options with that argument; another name
/// there is an error.
pub proof fn options_with_an_argument<V>(
    arg: spec_fn(Cursor) -> Step<V>,
    number: spec_fn(Text, usize, usize) -> V,
    t: Toks,
    i: nat,
    name: Text,
    v: V,
    k: nat,
)
    requires
        is_name(t, i, name),
        is_tok(t, i + 1, Tok::Lpar),
        arg(at(i + 2)) == found(v, at(k)),
        is_tok(t, k, Tok::Rpar),
    ensures
        ({
            let step = segment_option(arg, number, t, at(i));
            let location = span(begin(t, i), end(t, k));
            let value = Box::new(v);
            &&& name == "size"@ ==> step == found(
                Some(SegmentOptionView::Size { location, value, short_form: false }),
                at(k + 1),
            )
            &&& name == "unit"@ ==> step == found(
                Some(SegmentOptionView::Unit { location, value, short_form: false }),
                at(k + 1),
            )
            &&& name != "size"@ && name != "unit"@ ==> step == error_at::<
                Option<SegmentOptionView<V>>,
            >(ParseErrorType::InvalidBitStringSegment, location, at(k + 1))
        }),
{
    reveal_strlit("size");
    reveal_strlit("unit");
    assert("size"@[0] == 's');
    assert("unit"@[0] == 'u');
}

/// A keyword without an argument is the option that it stands for; a name that is no keyword is an
/// error.
pub proof fn options_without_an_argument<V>(
    arg: spec_fn(Cursor) -> Step<V>,
    number: spec_fn(Text, usize, usize) -> V,
    t: Toks,
    i: nat,
    name: Text,
)
    requires
        is_name(t, i, name),
        !is_tok(t, i + 1, Tok::Lpar),
    ensures
        ({
            let step = segment_option(arg, number, t, at(i));
            let location = span(begin(t, i), end(t, i));
            let j = at(i + 1);
            &&& name == "binary"@ || name == "bytes"@ ==> step == found(
                Some(SegmentOptionView::<V>::Binary { location }),
                j,
            )
            &&& name == "int"@ ==> step == found(
                Some(SegmentOptionView::<V>::Integer { location }),
                j,
            )
            &&& name == "float"@ ==> step == found(
                Some(SegmentOptionView::<V>::Float { location }),
                j,
            )
            &&& name == "bit_string"@ || name == "bits"@ ==> step == found(
                Some(SegmentOptionView::<V>::BitString { location }),
                j,
            )
            &&& name == "utf8"@ ==> step == found(
                Some(SegmentOptionView::<V>::UTF8 { location }),
                j,
            )
            &&& name == "utf16"@ ==> step == found(
                Some(SegmentOptionView::<V>::UTF16 { location }),
                j,
            )
            &&& name == "utf32"@ ==> step == found(
                Some(SegmentOptionView::<V>::UTF32 { location }),
                j,
            )
            &&& name == "utf8_codepoint"@ ==> step == found(
                Some(SegmentOptionView::<V>::UTF8Codepoint { location }),
                j,
            )
            &&& name == "utf16_codepoint"@ ==> step == found(
                Some(SegmentOptionView::<V>::UTF16Codepoint { location }),
                j,
            )
            &&& name == "utf32_codepoint"@ ==> step == found(
                Some(SegmentOptionView::<V>::UTF32Codepoint { location }),
                j,
            )
            &&& name == "signed"@ ==> step == found(
                Some(SegmentOptionView::<V>::Signed { location }),
                j,
            )
            &&& name == "unsigned"@ ==> step == found(
                Some(SegmentOptionView::<V>::Unsigned { location }),
                j,
            )
            &&& name == "big"@ ==> step == found(Some(SegmentOptionView::<V>::Big { location }), j)
            &&& name == "little"@ ==> step == found(
                Some(SegmentOptionView::<V>::Little { location }),
                j,
            )
            &&& name == "native"@ ==> step == found(
                Some(SegmentOptionView::<V>::Native { location }),
                j,
            )
            &&& !is_option_keyword(name) ==> step == error_at::<Option<SegmentOptionView<V>>>(
                ParseErrorType::InvalidBitStringSegment,
                location,
                j,
            )
        }),
{
    let location = span(begin(t, i), end(t, i));
    lemma_keywords(name);
    assert(segment_option(arg, number, t, at(i)) == match keyword_option::<V>(name, location) {
        Some(option) => found(Some(option), at(i + 1)),
        None => error_at(ParseErrorType::InvalidBitStringSegment, location, at(i + 1)),
    });
}

/// The names that are options by themselves.
pub open spec fn is_option_keyword(name: Text) -> bool {
    ||| name == "binary"@
    ||| name == "bytes"@
    ||| name == "int"@
    ||| name == "float"@
    ||| name == "bit_string"@
    ||| name == "bits"@
    ||| name == "utf8"@
    ||| name == "utf16"@
    ||| name == "utf32"@
    ||| name == "utf8_codepoint"@
    ||| name == "utf16_codepoint"@
    ||| name == "utf32_codepoint"@
    ||| name == "signed"@
    ||| name == "unsigned"@
    ||| name == "big"@
    ||| name == "little"@
    ||| name == "native"@
}

/// What tells the keywords apart: their length, and where that is the same the first or fourth
/// letter.
proof fn lemma_keywords(name: Text)
    ensures
        name == "binary"@ ==> name.len() == 6 && name[0] == 'b',
        name == "bytes"@ ==> name.len() == 5 && name[0] == 'b',
        name == "int"@ ==> name.len() == 3 && name[0] == 'i',
        name == "float"@ ==> name.len() == 5 && name[0] == 'f',
        name == "bit_string"@ ==> name.len() == 10,
        name == "bits"@ ==> name.len() == 4 && name[0] == 'b',
        name == "utf8"@ ==> name.len() == 4 && name[0] == 'u',
        name == "utf16"@ ==> name.len() == 5 && name[0] == 'u' && name[3] == '1',
        name == "utf32"@ ==> name.len() == 5 && name[0] == 'u' && name[3] == '3',
        name == "utf8_codepoint"@ ==> name.len() == 14,
        name == "utf16_codepoint"@ ==> name.len() == 15 && name[3] == '1',
        name == "utf32_codepoint"@ ==> name.len() == 15 && name[3] == '3',
        name == "signed"@ ==> name.len() == 6 && name[0] == 's',
        name == "unsigned"@ ==> name.len() == 8,
        name == "big"@ ==> name.len() == 3 && name[0] == 'b',
        name == "little"@ ==> name.len() == 6 && name[0] == 'l',
        name == "native"@ ==> name.len() == 6 && name[0] == 'n',
{
    reveal_strlit("binary");
    reveal_strlit("bytes");
    reveal_strlit("int");
    reveal_strlit("float");
    reveal_strlit("bit_string");
    reveal_strlit("bits");
    reveal_strlit("utf8");
    reveal_strlit("utf16");
    reveal_strlit("utf32");
    reveal_strlit("utf8_codepoint");
    reveal_strlit("utf16_codepoint");
    reveal_strlit("utf32_codepoint");
    reveal_strlit("signed");
    reveal_strlit("unsigned");
    reveal_strlit("big");
    reveal_strlit("little");
    reveal_strlit("native");
}

} // verus!
