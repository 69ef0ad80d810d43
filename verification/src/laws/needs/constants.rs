//! What constants need.

use crate::grammar::basics::{expect_upname, series};
use crate::grammar::constants::{
    const_bit_string, const_list, const_record_arg, const_record_arg_from, const_record_finish,
    const_segment_from, const_tuple, const_value, const_values,
};
use crate::laws::needs::{lacks, lemma_lacks, needs, passes_on};
use crate::laws::rules::{at, begin, behind_label, end, is_name, is_tok, is_upname, labelled};
use crate::model::Text;
use crate::stream::Toks;
use crate::token::Tok;
use vstd::prelude::*;

verus! {

/// A constant tuple needs its elements in parentheses.
pub proof fn what_a_constant_tuple_needs(t: Toks, i: nat, k: nat)
    requires
        is_tok(t, i, Tok::Tuple),
    ensures
        !is_tok(t, i + 1, Tok::Lpar) ==> lacks(const_value(t, at(i)), t, i + 1, Tok::Lpar),
        is_tok(t, i + 1, Tok::Lpar) ==> needs(
            const_value(t, at(i)),
            const_values(t, at(i + 2)),
            t,
            k,
            Tok::Rpar,
        ),
{
    let step = const_tuple(t, at(i + 1), begin(t, i));
    lemma_lacks(t, i + 1, Tok::Lpar);
    lemma_lacks(t, k, Tok::Rpar);
    assert(step.res is Err ==> const_value(t, at(i)).res is Err);
}

/// A constant list needs a closing bracket.
pub proof fn what_a_constant_list_needs(t: Toks, i: nat, k: nat)
    requires
        is_tok(t, i, Tok::Lsqb),
    ensures
        needs(const_value(t, at(i)), const_values(t, at(i + 1)), t, k, Tok::Rsqb),
{
    let step = const_list(t, at(i + 1), begin(t, i));
    lemma_lacks(t, k, Tok::Rsqb);
    assert(step.res is Err ==> const_value(t, at(i)).res is Err);
}

/// A constant bit string needs `>>` behind its segments.
pub proof fn what_a_constant_bit_string_needs(t: Toks, i: nat, k: nat)
    requires
        is_tok(t, i, Tok::LtLt),
    ensures
        needs(
            const_value(t, at(i)),
            series(
                const_segment_from(t, at(i + 1)),
                t,
                Some(Tok::Comma),
                Seq::empty(),
                at(i + 1),
            ),
            t,
            k,
            Tok::GtGt,
        ),
{
    let step = const_bit_string(t, at(i + 1), begin(t, i));
    lemma_lacks(t, k, Tok::GtGt);
    assert(step.res is Err ==> const_value(t, at(i)).res is Err);
}

/// An opening parenthesis behind the name of a record needs arguments and a closing one.
pub proof fn what_arguments_of_a_record_need(
    t: Toks,
    i: nat,
    module: Option<Text>,
    name: Text,
    k: nat,
)
    requires
        match module {
            Some(text) => is_name(t, i, text) && is_tok(t, i + 1, Tok::Dot),
            None => true,
        },
        is_upname(
            t,
            if module is Some {
                i + 2
            } else {
                i
            },
            name,
        ),
    ensures
        ({
            let behind = if module is Some {
                i + 3
            } else {
                i + 1
            };
            is_tok(t, behind, Tok::Lpar) ==> needs(
                const_value(t, at(i)),
                series(
                    const_record_arg_from(t, at(behind + 1)),
                    t,
                    Some(Tok::Comma),
                    Seq::empty(),
                    at(behind + 1),
                ),
                t,
                k,
                Tok::Rpar,
            )
        }),
{
    let behind = if module is Some {
        i + 3
    } else {
        i + 1
    };
    let step = const_record_finish(
        t,
        at(behind),
        begin(t, i),
        module,
        name,
        end(t, (behind - 1) as nat),
    );
    assert(const_value(t, at(i)) == step);
    lemma_lacks(t, k, Tok::Rpar);
}

/// The name of a module and a dot need the name of a record.
pub proof fn what_a_module_of_a_record_needs(t: Toks, i: nat, module: Text)
    requires
        is_name(t, i, module),
        is_tok(t, i + 1, Tok::Dot),
    ensures
        passes_on(const_value(t, at(i)), expect_upname(t, at(i + 2))),
{
}

/// An error in an argument of a record is passed on.
pub proof fn what_an_argument_of_a_record_needs(t: Toks, i: nat, label: Option<Text>)
    requires
        labelled(t, i, label),
    ensures
        passes_on(const_record_arg(t, at(i)), const_value(t, at(behind_label(i, label)))),
{
}

} // verus!
