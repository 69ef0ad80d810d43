//! Calls, some of whose arguments may be left open.

use crate::ast::{Arg, ArgNames, CAPTURE_VARIABLE, CallArg, SrcSpan, UntypedExpr};
use crate::error::{outcome, parse_error, ErrorView, Fault, ParseError, ParseErrorType};
use crate::model::{expr_args_view_is_deep_view, ArgNamesView, ArgView, CallArgView, ExprView, Text};
use vstd::prelude::*;

verus! {

/// An argument of a call: an expression, or a hole that is left open.
pub enum ParserArg {
    Arg(CallArg<UntypedExpr>),
    Hole { location: SrcSpan, label: Option<String> },
}

/// The model of a [`ParserArg`].
#[verifier::ext_equal]
pub enum ParserArgView {
    Arg(CallArgView<ExprView>),
    Hole { location: SrcSpan, label: Option<Text> },
}

impl DeepView for ParserArg {
    type V = ParserArgView;

    open spec fn deep_view(&self) -> ParserArgView {
        match *self {
            ParserArg::Arg(arg) => ParserArgView::Arg(arg.deep_view()),
            ParserArg::Hole { location, label } => ParserArgView::Hole {
                location,
                label: label.deep_view(),
            },
        }
    }
}

/// The argument with the capture variable in place of a hole.
pub open spec fn filled(arg: ParserArgView) -> CallArgView<ExprView> {
    match arg {
        ParserArgView::Arg(arg) => arg,
        ParserArgView::Hole { location, label } => CallArgView {
            label,
            location,
            value: ExprView::Var { location, name: CAPTURE_VARIABLE@ },
        },
    }
}

/// How many arguments are holes.
pub open spec fn holes(args: Seq<ParserArgView>) -> nat {
    args.filter(|arg: ParserArgView| arg is Hole).len()
}

/// The call of a function with arguments that have no holes.
pub open spec fn plain_call(
    fun: ExprView,
    args: Seq<ParserArgView>,
    location: SrcSpan,
) -> ExprView {
    ExprView::Call {
        location,
        fun: Box::new(fun),
        args: args.map_values(|arg: ParserArgView| filled(arg)),
    }
}

/// The function that takes what is left open in a call.
pub open spec fn capture(call: ExprView, location: SrcSpan) -> ExprView {
    ExprView::Fn {
        location,
        is_capture: true,
        args: seq![
            ArgView {
                names: ArgNamesView::Named { name: CAPTURE_VARIABLE@ },
                location: SrcSpan { start: 0, end: 0 },
                annotation: None,
            },
        ],
        body: Box::new(call),
        return_annotation: None,
    }
}

/// What a call means: without holes it is a call, with one hole a function of what is left open,
/// and with more an error.
pub open spec fn call(fun: ExprView, args: Seq<ParserArgView>, start: usize, end: usize) -> Result<
    ExprView,
    ErrorView,
> {
    let location = SrcSpan { start, end };
    if holes(args) == 0 {
        Ok(plain_call(fun, args, location))
    } else if holes(args) == 1 {
        Ok(capture(plain_call(fun, args, location), location))
    } else {
        Err(ErrorView { fault: Fault::Plain(ParseErrorType::TooManyArgHoles), location })
    }
}

/// Makes a call of a function and its arguments.
pub fn make_call(fun: UntypedExpr, args: Vec<ParserArg>, start: usize, end: usize) -> (result:
    Result<UntypedExpr, ParseError>)
    ensures
        outcome(result) == call(fun.deep_view(), args.deep_view(), start, end),
{
    let ghost all = args.deep_view();
    let ghost fill = |arg: ParserArgView| filled(arg);
    let location = SrcSpan { start, end };
    let mut num_holes: usize = 0;
    let mut call_args: Vec<CallArg<UntypedExpr>> = vec![];
    assert(all.take(0) =~= Seq::empty());
    assert(holes(all.take(0)) == 0) by {
        reveal(Seq::filter);
    }
    assert(args.len() == args@.len());
    for arg in iter: args.into_iter()
        invariant
            all == args.deep_view(),
            iter.seq() == args@,
            args@.len() <= usize::MAX,
            num_holes == holes(all.take(iter.index())),
            num_holes <= iter.index(),
            call_args.deep_view() == all.take(iter.index()).map_values(fill),
            fill == |arg: ParserArgView| filled(arg),
    {
        let ghost i = iter.index();
        let ghost before = call_args.deep_view();
        assert(all.take(i + 1).drop_last() =~= all.take(i));
        assert(all.take(i + 1).last() == arg.deep_view());
        assert(holes(all.take(i + 1)) == holes(all.take(i)) + if arg is Hole {
            1int
        } else {
            0int
        }) by {
            reveal(Seq::filter);
        }
        match arg {
            ParserArg::Arg(arg) => {
                call_args.push(arg);
            },
            ParserArg::Hole { location, label } => {
                num_holes = num_holes + 1;
                call_args.push(
                    CallArg {
                        label,
                        location,
                        value: UntypedExpr::Var { location, name: CAPTURE_VARIABLE.to_string() },
                    },
                );
            },
        }
        assert(call_args.deep_view() =~= before.push(filled(arg.deep_view())));
        assert(call_args.deep_view() =~= all.take(i + 1).map_values(fill));
    }
    assert(all.take(all.len() as int) =~= all);
    proof {
        expr_args_view_is_deep_view(call_args);
    }
    let call = UntypedExpr::Call { location, fun: Box::new(fun), args: call_args };
    assert(call.deep_view() == plain_call(fun.deep_view(), all, location));
    if num_holes == 0 {
        // A normal call
        Ok(call)
    } else if num_holes == 1 {
        // An anon function using the capture syntax run(_, 1, 2)
        let capture_args = vec![
            Arg {
                location: SrcSpan { start: 0, end: 0 },
                annotation: None,
                names: ArgNames::Named { name: CAPTURE_VARIABLE.to_string() },
                typ: (),
            },
        ];
        assert(capture_args.deep_view() =~= seq![capture_args@[0].deep_view()]);
        Ok(
            UntypedExpr::Fn {
                location,
                is_capture: true,
                args: capture_args,
                body: Box::new(call),
                return_annotation: None,
            },
        )
    } else {
        parse_error(ParseErrorType::TooManyArgHoles, location)
    }
}

} // verus!
