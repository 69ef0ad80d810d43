//! Where the errors of whole inputs are located.

use crate::grammar::basics::Step;
use crate::grammar::exprs::expression_seq;
use crate::grammar::modules::{checked, definitions, expression_of, module_of, start};
use crate::grammar::statements::statement_in;
use crate::laws::spans::{all_fit, error_fits, errors_of_a_series, fits, within};
use crate::laws::spans::exprs::sequences_are_located;
use crate::laws::spans::statements::errors_in_statements_are_located;
use crate::stream::{first_lex_error, stream, Cursor, LexResult};
use crate::token::is_layout;
use vstd::prelude::*;

verus! {

/// Whether all tokens and lexical errors of an input lie within a bound.
pub open spec fn input_fits(bound: nat, input: Seq<LexResult>) -> bool {
    forall|i: int|
        0 <= i < input.len() ==> match #[trigger] input[i] {
            Ok(spanned) => fits(bound, spanned),
            Err(error) => error.location <= bound,
        }
}

proof fn lemma_stream_fits(bound: nat, input: Seq<LexResult>)
    requires
        input_fits(bound, input),
    ensures
        all_fit(bound, stream(input)),
    decreases input.len(),
{
    if input.len() > 0 {
        let tail = input.drop_first();
        assert forall|i: int| 0 <= i < tail.len() implies match #[trigger] tail[i] {
            Ok(spanned) => fits(bound, spanned),
            Err(error) => error.location <= bound,
        } by {
            assert(tail[i] == input[i + 1]);
        }
        lemma_stream_fits(bound, tail);
        assert(input[0] matches Ok(spanned) ==> fits(bound, spanned));
        let rest = stream(tail);
        assert forall|i: int| 0 <= i < stream(input).len() implies ((#[trigger] stream(
            input,
        )[i]) matches Some(spanned) ==> fits(bound, spanned)) by {
            if stream(input).len() == rest.len() + 1 && i > 0 {
                assert(stream(input)[i] == rest[i - 1]);
            }
        }
    }
}

proof fn lemma_lex_error_fits(bound: nat, input: Seq<LexResult>, count: nat)
    requires
        input_fits(bound, input),
    ensures
        first_lex_error(input, count) matches Some(error) ==> error.location <= bound,
    decreases input.len(),
{
    if input.len() > 0 && count > 0 {
        let tail = input.drop_first();
        assert forall|i: int| 0 <= i < tail.len() implies match #[trigger] tail[i] {
            Ok(spanned) => fits(bound, spanned),
            Err(error) => error.location <= bound,
        } by {
            assert(tail[i] == input[i + 1]);
        }
        match input[0] {
            Ok(spanned) => {
                if is_layout(spanned.1) {
                    lemma_lex_error_fits(bound, tail, count);
                } else {
                    lemma_lex_error_fits(bound, tail, (count - 1) as nat);
                }
            },
            Err(error) => {
                assert(input[0] matches Err(error) ==> error.location <= bound);
            },
        }
    }
}

proof fn lemma_checked<A>(bound: nat, input: Seq<LexResult>, step: Step<A>)
    requires
        input_fits(bound, input),
        error_fits(bound, step),
    ensures
        checked(input, step) matches Err(error) ==> within(bound, error.location),
{
    lemma_stream_fits(bound, input);
    lemma_lex_error_fits(bound, input, step.to.at + 2);
}

/// The error that an input is answered with is located within any bound of its tokens and lexical
/// errors.
pub proof fn errors_point_into_the_source(bound: nat, input: Seq<LexResult>)
    requires
        input_fits(bound, input),
    ensures
        module_of(input) matches Err(error) ==> within(bound, error.location),
        expression_of(input) matches Err(error) ==> within(bound, error.location),
{
    let t = stream(input);
    lemma_stream_fits(bound, input);
    let p = statement_in(t);
    assert forall|d: Cursor| error_fits(bound, #[trigger] p(d)) by {
        errors_in_statements_are_located(bound, t, d);
    }
    errors_of_a_series(bound, p, t, None, Seq::empty(), start());
    lemma_checked(bound, input, definitions(t, start()));
    sequences_are_located(bound, t, start());
    lemma_checked(bound, input, expression_seq(t, start()));
}

} // verus!
