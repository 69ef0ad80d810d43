//! What patterns need.

use crate::error::ErrorView;
use crate::grammar::basics::{expect_name, expect_upname, series, some_of};
use crate::grammar::patterns::{
    bare_pattern, bit_string_pattern, constructor_arg, constructor_arg_from, constructor_args,
    constructor_pattern, list_pattern, pattern, pattern_segment_from, patterns, tuple_pattern,
};
use crate::laws::needs::{lacks, lemma_lacks, needs, passes_on, stops};
use crate::laws::places::patterns::patterns_move;
use crate::laws::rules::{at, begin, behind_label, end, is_name, is_tok, is_upname, labelled};
use crate::model::{PatternView, Text};
use crate::stream::Toks;
use crate::token::Tok;
use vstd::prelude::*;

verus! {

/// A tuple of patterns needs parentheses.
pub proof fn what_a_tuple_of_patterns_needs(t: Toks, i: nat, k: nat)
    requires
        is_tok(t, i, Tok::Tuple),
    ensures
        !is_tok(t, i + 1, Tok::Lpar) ==> lacks(pattern(t, at(i)), t, i + 1, Tok::Lpar),
        is_tok(t, i + 1, Tok::Lpar) ==> needs(
            pattern(t, at(i)),
            patterns(t, at(i + 2)),
            t,
            k,
            Tok::Rpar,
        ),
{
    let step = tuple_pattern(t, at(i + 1), begin(t, i));
    lemma_lacks(t, i + 1, Tok::Lpar);
    lemma_lacks(t, k, Tok::Rpar);
    assert(step.res is Err ==> bare_pattern(t, at(i)).res is Err);
}

/// A bit string of patterns needs `>>` behind its segments.
pub proof fn what_a_bit_string_of_patterns_needs(t: Toks, i: nat, k: nat)
    requires
        is_tok(t, i, Tok::LtLt),
    ensures
        needs(
            pattern(t, at(i)),
            series(
                pattern_segment_from(t, at(i + 1)),
                t,
                Some(Tok::Comma),
                Seq::empty(),
                at(i + 1),
            ),
            t,
            k,
            Tok::GtGt,
        ),
{
    let step = bit_string_pattern(t, at(i + 1), begin(t, i));
    lemma_lacks(t, k, Tok::GtGt);
    assert(step.res is Err ==> bare_pattern(t, at(i)).res is Err);
}

/// A list of patterns needs a closing bracket, also behind two dots, a tail and a comma.
pub proof fn what_a_list_of_patterns_needs(t: Toks, i: nat, k: nat, m: nat)
    requires
        is_tok(t, i, Tok::Lsqb),
    ensures
        ({
            let whole = pattern(t, at(i));
            let elems = patterns(t, at(i + 1));
            let tail = pattern(t, at(k + 1));
            &&& passes_on(whole, elems)
            &&& stops(elems, k) && !is_tok(t, k, Tok::Rsqb) && !is_tok(t, k, Tok::DotDot) ==> lacks(
                whole,
                t,
                k,
                Tok::Rsqb,
            )
            &&& stops(elems, k) && is_tok(t, k, Tok::DotDot) ==> {
                &&& passes_on(whole, tail)
                &&& stops(tail, m) && is_tok(t, m, Tok::Comma) && !is_tok(t, m + 1, Tok::Rsqb)
                    ==> lacks(whole, t, m + 1, Tok::Rsqb)
                &&& stops(tail, m) && !is_tok(t, m, Tok::Comma) && !is_tok(t, m, Tok::Rsqb)
                    ==> lacks(whole, t, m, Tok::Rsqb)
            }
        }),
{
    let step = list_pattern(t, at(i + 1), begin(t, i));
    patterns_move(t, at(i + 1));
    lemma_lacks(t, k, Tok::Rsqb);
    lemma_lacks(t, m, Tok::Rsqb);
    lemma_lacks(t, m + 1, Tok::Rsqb);
    assert(step.res is Err ==> bare_pattern(t, at(i)).res is Err);
}

/// An opening parenthesis behind the name of a constructor needs arguments and a closing one,
/// before which two dots and a comma may stand.
pub proof fn what_arguments_of_a_constructor_pattern_need(
    t: Toks,
    i: nat,
    module: Option<Text>,
    name: Text,
    k: nat,
)
    requires
        match module {
            Some(text) => is_name(t, i, text) && is_tok(t, i + 1, Tok::Dot),
            None => true,
        },
        is_upname(
            t,
            if module is Some {
                i + 2
            } else {
                i
            },
            name,
        ),
    ensures
        ({
            let behind = if module is Some {
                i + 3
            } else {
                i + 1
            };
            let whole = pattern(t, at(i));
            let args = series(
                constructor_arg_from(t, at(behind + 1)),
                t,
                Some(Tok::Comma),
                Seq::empty(),
                at(behind + 1),
            );
            is_tok(t, behind, Tok::Lpar) ==> {
                &&& passes_on(whole, args)
                &&& stops(args, k) && !is_tok(t, k, Tok::DotDot) && !is_tok(t, k, Tok::Rpar)
                    ==> lacks(whole, t, k, Tok::Rpar)
                &&& stops(args, k) && is_tok(t, k, Tok::DotDot) && !is_tok(t, k + 1, Tok::Comma)
                    && !is_tok(t, k + 1, Tok::Rpar) ==> lacks(whole, t, k + 1, Tok::Rpar)
                &&& stops(args, k) && is_tok(t, k, Tok::DotDot) && is_tok(t, k + 1, Tok::Comma)
                    && !is_tok(t, k + 2, Tok::Rpar) ==> lacks(whole, t, k + 2, Tok::Rpar)
            }
        }),
{
    let behind = if module is Some {
        i + 3
    } else {
        i + 1
    };
    let (place, named) = match module {
        Some(text) => (at(i + 2), Some((begin(t, i), text))),
        None => (at(i), None),
    };
    let rest = constructor_args(t, at(behind), end(t, (behind - 1) as nat));
    let step = constructor_pattern(t, place, named);
    assert(passes_on(step, rest));
    assert(step.res is Err ==> bare_pattern(t, at(i)) == some_of(step));
    lemma_lacks(t, k, Tok::Rpar);
    lemma_lacks(t, k + 1, Tok::Rpar);
    lemma_lacks(t, k + 2, Tok::Rpar);
}

/// The name of a module and a dot need the name of a constructor.
pub proof fn what_a_module_of_a_constructor_needs(t: Toks, i: nat, module: Text)
    requires
        is_name(t, i, module),
        is_tok(t, i + 1, Tok::Dot),
    ensures
        passes_on(pattern(t, at(i)), expect_upname(t, at(i + 2))),
{
    let step = constructor_pattern(t, at(i + 2), Some((begin(t, i), module)));
    assert(step.res is Err ==> bare_pattern(t, at(i)).res is Err);
}

/// `as` behind a pattern needs a name.
pub proof fn what_a_name_for_a_pattern_needs(t: Toks, i: nat, pat: PatternView, j: nat)
    requires
        bare_pattern(t, at(i)).res == Ok::<_, ErrorView>(Some(pat)),
        bare_pattern(t, at(i)).to == at(j),
        is_tok(t, j, Tok::As),
    ensures
        passes_on(pattern(t, at(i)), expect_name(t, at(j + 1))),
{
}

/// An error in an argument of a constructor is passed on.
pub proof fn what_an_argument_of_a_constructor_pattern_needs(
    t: Toks,
    i: nat,
    label: Option<Text>,
)
    requires
        labelled(t, i, label),
    ensures
        passes_on(constructor_arg(t, at(i)), pattern(t, at(behind_label(i, label)))),
{
}

} // verus!
