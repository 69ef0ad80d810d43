//! Laws of models: a model holds all parts of what it models, each in its place.

use crate::ast::{
    Arg, ArgNames, BitStringSegment, BitStringSegmentOption, CallArg, Clause, ClauseGuard, Constant,
    ExternalFnArg, Module, Pattern, RecordConstructor, RecordConstructorArg, RecordUpdateSpread,
    Statement, TypeAst, UnqualifiedImport, UntypedExpr, UntypedRecordUpdateArg,
};
use crate::call::{ParserArg, ParserArgView};
use crate::error::{outcome, ErrorView, Fault, ParseError, ParseErrorType};
use crate::extra::ModuleExtra;
use crate::model::{
    clauses_view_is_deep_view, constant_args_view_is_deep_view, constant_segments_view_is_deep_view,
    constants_view_is_deep_view, expr_args_view_is_deep_view, expr_segments_view_is_deep_view,
    exprs_view_is_deep_view, pattern_args_view_is_deep_view, pattern_segments_view_is_deep_view,
    patterns_view_is_deep_view, types_view_is_deep_view, update_args_view_is_deep_view,
    ArgNamesView, ArgView, CallArgView, ClauseView, ConstantView, ExprView, ExternalFnArgView,
    GuardView, ModuleView, PatternView, RecordConstructorArgView, RecordConstructorView,
    RecordUpdateArgView, SegmentOptionView, SegmentView, SpreadView, StatementView, TypeView,
    UnqualifiedImportView,
};
use vstd::prelude::*;

verus! {

/// A type is modelled with all its parts, each in its place.
pub proof fn types_are_modelled_with_all_their_parts(typ: TypeAst)
    ensures
        typ matches TypeAst::Constructor { location, module, name, args }
            ==> typ.deep_view() == (TypeView::Constructor {
            location,
            module: module.deep_view(),
            name: name@,
            args: args.deep_view(),
        }),
        typ matches TypeAst::Fn { location, args, retrn }
            ==> typ.deep_view() == (TypeView::Fn {
            location,
            args: args.deep_view(),
            retrn: Box::new((*retrn).deep_view()),
        }),
        typ matches TypeAst::Var { location, name }
            ==> typ.deep_view() == (TypeView::Var { location, name: name@ }),
        typ matches TypeAst::Tuple { location, elems }
            ==> typ.deep_view() == (TypeView::Tuple { location, elems: elems.deep_view() }),
        typ matches TypeAst::Hole { location, name }
            ==> typ.deep_view() == (TypeView::Hole { location, name: name@ }),
{
    match typ {
        TypeAst::Constructor { args, .. } => {
            types_view_is_deep_view(args);
        },
        TypeAst::Fn { args, .. } => {
            types_view_is_deep_view(args);
        },
        TypeAst::Tuple { elems, .. } => {
            types_view_is_deep_view(elems);
        },
        _ => {},
    }
}

/// A pattern is modelled with all its parts, each in its place.
pub proof fn patterns_are_modelled_with_all_their_parts(pat: Pattern)
    ensures
        pat matches Pattern::Int { location, value }
            ==> pat.deep_view() == (PatternView::Int { location, value: value@ }),
        pat matches Pattern::Float { location, value }
            ==> pat.deep_view() == (PatternView::Float { location, value: value@ }),
        pat matches Pattern::String { location, value }
            ==> pat.deep_view() == (PatternView::String { location, value: value@ }),
        pat matches Pattern::Var { location, name }
            ==> pat.deep_view() == (PatternView::Var { location, name: name@ }),
        pat matches Pattern::VarCall { location, name, typ: _ }
            ==> pat.deep_view() == (PatternView::VarCall { location, name: name@ }),
        pat matches Pattern::Let { name, pattern }
            ==> pat.deep_view() == (PatternView::Let {
            name: name@,
            pattern: Box::new((*pattern).deep_view()),
        }),
        pat matches Pattern::Discard { name, location }
            ==> pat.deep_view() == (PatternView::Discard { name: name@, location }),
        pat matches Pattern::Nil { location }
            ==> pat.deep_view() == (PatternView::Nil { location }),
        pat matches Pattern::Cons { location, head, tail }
            ==> pat.deep_view() == (PatternView::Cons {
            location,
            head: Box::new((*head).deep_view()),
            tail: Box::new((*tail).deep_view()),
        }),
        pat matches Pattern::Constructor {
            location,
            name,
            args,
            module,
            constructor: _,
            with_spread,
        }
            ==> pat.deep_view() == (PatternView::Constructor {
            location,
            name: name@,
            args: args.deep_view(),
            module: module.deep_view(),
            with_spread,
        }),
        pat matches Pattern::Tuple { location, elems }
            ==> pat.deep_view() == (PatternView::Tuple { location, elems: elems.deep_view() }),
        pat matches Pattern::BitString { location, segments }
            ==> pat.deep_view() == (PatternView::BitString {
            location,
            segments: segments.deep_view(),
        }),
{
    match pat {
        Pattern::Constructor { args, .. } => {
            pattern_args_view_is_deep_view(args);
        },
        Pattern::Tuple { elems, .. } => {
            patterns_view_is_deep_view(elems);
        },
        Pattern::BitString { segments, .. } => {
            pattern_segments_view_is_deep_view(segments);
        },
        _ => {},
    }
}

/// A constant is modelled with all its parts, each in its place.
pub proof fn constants_are_modelled_with_all_their_parts(constant: Constant)
    ensures
        constant matches Constant::Int { location, value }
            ==> constant.deep_view() == (ConstantView::Int { location, value: value@ }),
        constant matches Constant::Float { location, value }
            ==> constant.deep_view() == (ConstantView::Float { location, value: value@ }),
        constant matches Constant::String { location, value }
            ==> constant.deep_view() == (ConstantView::String { location, value: value@ }),
        constant matches Constant::Tuple { location, elements }
            ==> constant.deep_view() == (ConstantView::Tuple {
            location,
            elements: elements.deep_view(),
        }),
        constant matches Constant::List { location, elements, typ: _ }
            ==> constant.deep_view() == (ConstantView::List {
            location,
            elements: elements.deep_view(),
        }),
        constant matches Constant::Record { location, module, name, args, tag: _, typ: _ }
            ==> constant.deep_view() == (ConstantView::Record {
            location,
            module: module.deep_view(),
            name: name@,
            args: args.deep_view(),
        }),
        constant matches Constant::BitString { location, segments }
            ==> constant.deep_view() == (ConstantView::BitString {
            location,
            segments: segments.deep_view(),
        }),
{
    match constant {
        Constant::Tuple { elements, .. } => {
            constants_view_is_deep_view(elements);
        },
        Constant::List { elements, .. } => {
            constants_view_is_deep_view(elements);
        },
        Constant::Record { args, .. } => {
            constant_args_view_is_deep_view(args);
        },
        Constant::BitString { segments, .. } => {
            constant_segments_view_is_deep_view(segments);
        },
        _ => {},
    }
}

/// A guard is modelled with all its parts, each in its place.
pub proof fn guards_are_modelled_with_all_their_parts(guard: ClauseGuard)
    ensures
        guard matches ClauseGuard::Equals { location, left, right }
            ==> guard.deep_view() == (GuardView::Equals {
            location,
            left: Box::new((*left).deep_view()),
            right: Box::new((*right).deep_view()),
        }),
        guard matches ClauseGuard::NotEquals { location, left, right }
            ==> guard.deep_view() == (GuardView::NotEquals {
            location,
            left: Box::new((*left).deep_view()),
            right: Box::new((*right).deep_view()),
        }),
        guard matches ClauseGuard::GtInt { location, left, right }
            ==> guard.deep_view() == (GuardView::GtInt {
            location,
            left: Box::new((*left).deep_view()),
            right: Box::new((*right).deep_view()),
        }),
        guard matches ClauseGuard::GtEqInt { location, left, right }
            ==> guard.deep_view() == (GuardView::GtEqInt {
            location,
            left: Box::new((*left).deep_view()),
            right: Box::new((*right).deep_view()),
        }),
        guard matches ClauseGuard::LtInt { location, left, right }
            ==> guard.deep_view() == (GuardView::LtInt {
            location,
            left: Box::new((*left).deep_view()),
            right: Box::new((*right).deep_view()),
        }),
        guard matches ClauseGuard::LtEqInt { location, left, right }
            ==> guard.deep_view() == (GuardView::LtEqInt {
            location,
            left: Box::new((*left).deep_view()),
            right: Box::new((*right).deep_view()),
        }),
        guard matches ClauseGuard::GtFloat { location, left, right }
            ==> guard.deep_view() == (GuardView::GtFloat {
            location,
            left: Box::new((*left).deep_view()),
            right: Box::new((*right).deep_view()),
        }),
        guard matches ClauseGuard::GtEqFloat { location, left, right }
            ==> guard.deep_view() == (GuardView::GtEqFloat {
            location,
            left: Box::new((*left).deep_view()),
            right: Box::new((*right).deep_view()),
        }),
        guard matches ClauseGuard::LtFloat { location, left, right }
            ==> guard.deep_view() == (GuardView::LtFloat {
            location,
            left: Box::new((*left).deep_view()),
            right: Box::new((*right).deep_view()),
        }),
        guard matches ClauseGuard::LtEqFloat { location, left, right }
            ==> guard.deep_view() == (GuardView::LtEqFloat {
            location,
            left: Box::new((*left).deep_view()),
            right: Box::new((*right).deep_view()),
        }),
        guard matches ClauseGuard::Or { location, left, right }
            ==> guard.deep_view() == (GuardView::Or {
            location,
            left: Box::new((*left).deep_view()),
            right: Box::new((*right).deep_view()),
        }),
        guard matches ClauseGuard::And { location, left, right }
            ==> guard.deep_view() == (GuardView::And {
            location,
            left: Box::new((*left).deep_view()),
            right: Box::new((*right).deep_view()),
        }),
        guard matches ClauseGuard::Var { location, typ: _, name }
            ==> guard.deep_view() == (GuardView::Var { location, name: name@ }),
        guard matches ClauseGuard::TupleIndex { location, index, typ: _, tuple }
            ==> guard.deep_view() == (GuardView::TupleIndex {
            location,
            index,
            tuple: Box::new((*tuple).deep_view()),
        }),
        guard matches ClauseGuard::Constant(constant) ==> guard.deep_view()
            == GuardView::Constant(constant.deep_view()),
{
}

/// An expression is modelled with all its parts, each in its place.
pub proof fn expressions_are_modelled_with_all_their_parts(expr: UntypedExpr)
    ensures
        expr matches UntypedExpr::Int { location, value }
            ==> expr.deep_view() == (ExprView::Int { location, value: value@ }),
        expr matches UntypedExpr::Float { location, value }
            ==> expr.deep_view() == (ExprView::Float { location, value: value@ }),
        expr matches UntypedExpr::String { location, value }
            ==> expr.deep_view() == (ExprView::String { location, value: value@ }),
        expr matches UntypedExpr::Sequence { first, then }
            ==> expr.deep_view() == (ExprView::Sequence {
            first: Box::new((*first).deep_view()),
            then: Box::new((*then).deep_view()),
        }),
        expr matches UntypedExpr::Var { location, name }
            ==> expr.deep_view() == (ExprView::Var { location, name: name@ }),
        expr matches UntypedExpr::Fn { location, is_capture, args, body, return_annotation }
            ==> expr.deep_view() == (ExprView::Fn {
            location,
            is_capture,
            args: args.deep_view(),
            body: Box::new((*body).deep_view()),
            return_annotation: return_annotation.deep_view(),
        }),
        expr matches UntypedExpr::ListNil { location }
            ==> expr.deep_view() == (ExprView::ListNil { location }),
        expr matches UntypedExpr::ListCons { location, head, tail }
            ==> expr.deep_view() == (ExprView::ListCons {
            location,
            head: Box::new((*head).deep_view()),
            tail: Box::new((*tail).deep_view()),
        }),
        expr matches UntypedExpr::Call { location, fun, args }
            ==> expr.deep_view() == (ExprView::Call {
            location,
            fun: Box::new((*fun).deep_view()),
            args: args.deep_view(),
        }),
        expr matches UntypedExpr::BinOp { location, name, left, right }
            ==> expr.deep_view() == (ExprView::BinOp {
            location,
            name,
            left: Box::new((*left).deep_view()),
            right: Box::new((*right).deep_view()),
        }),
        expr matches UntypedExpr::Pipe { location, left, right }
            ==> expr.deep_view() == (ExprView::Pipe {
            location,
            left: Box::new((*left).deep_view()),
            right: Box::new((*right).deep_view()),
        }),
        expr matches UntypedExpr::Let { location, value, pattern, then, kind, annotation }
            ==> expr.deep_view() == (ExprView::Let {
            location,
            value: Box::new((*value).deep_view()),
            pattern: pattern.deep_view(),
            then: Box::new((*then).deep_view()),
            kind,
            annotation: annotation.deep_view(),
        }),
        expr matches UntypedExpr::Case { location, subjects, clauses }
            ==> expr.deep_view() == (ExprView::Case {
            location,
            subjects: subjects.deep_view(),
            clauses: clauses.deep_view(),
        }),
        expr matches UntypedExpr::FieldAccess { location, label, container }
            ==> expr.deep_view() == (ExprView::FieldAccess {
            location,
            label: label@,
            container: Box::new((*container).deep_view()),
        }),
        expr matches UntypedExpr::Tuple { location, elems }
            ==> expr.deep_view() == (ExprView::Tuple { location, elems: elems.deep_view() }),
        expr matches UntypedExpr::TupleIndex { location, index, tuple }
            ==> expr.deep_view() == (ExprView::TupleIndex {
            location,
            index,
            tuple: Box::new((*tuple).deep_view()),
        }),
        expr matches UntypedExpr::Todo { location, label }
            ==> expr.deep_view() == (ExprView::Todo { location, label: label.deep_view() }),
        expr matches UntypedExpr::BitString { location, segments }
            ==> expr.deep_view() == (ExprView::BitString {
            location,
            segments: segments.deep_view(),
        }),
        expr matches UntypedExpr::RecordUpdate { location, constructor, spread, args }
            ==> expr.deep_view() == (ExprView::RecordUpdate {
            location,
            constructor: Box::new((*constructor).deep_view()),
            spread: spread.deep_view(),
            args: args.deep_view(),
        }),
{
    match expr {
        UntypedExpr::Call { args, .. } => {
            expr_args_view_is_deep_view(args);
        },
        UntypedExpr::Case { clauses, subjects, .. } => {
            exprs_view_is_deep_view(subjects);
            clauses_view_is_deep_view(clauses);
        },
        UntypedExpr::Tuple { elems, .. } => {
            exprs_view_is_deep_view(elems);
        },
        UntypedExpr::BitString { segments, .. } => {
            expr_segments_view_is_deep_view(segments);
        },
        UntypedExpr::RecordUpdate { args, .. } => {
            update_args_view_is_deep_view(args);
        },
        _ => {},
    }
}

/// The parts of patterns, constants and expressions are modelled with all their parts.
pub proof fn shared_parts_are_modelled_with_all_their_parts<A: DeepView>(
    arg: CallArg<A>,
    segment: BitStringSegment<A>,
    option: BitStringSegmentOption<A>,
)
    ensures
        arg.deep_view() == (CallArgView {
            label: arg.label.deep_view(),
            location: arg.location,
            value: arg.value.deep_view(),
        }),
        segment.deep_view() == (SegmentView {
            location: segment.location,
            value: Box::new((*segment.value).deep_view()),
            options: segment.options.deep_view(),
        }),
        option matches BitStringSegmentOption::Binary { location } ==> option.deep_view() == (
        SegmentOptionView::<A::V>::Binary { location }),
        option matches BitStringSegmentOption::Integer { location } ==> option.deep_view() == (
        SegmentOptionView::<A::V>::Integer { location }),
        option matches BitStringSegmentOption::Float { location } ==> option.deep_view() == (
        SegmentOptionView::<A::V>::Float { location }),
        option matches BitStringSegmentOption::BitString { location } ==> option.deep_view() == (
        SegmentOptionView::<A::V>::BitString { location }),
        option matches BitStringSegmentOption::UTF8 { location } ==> option.deep_view() == (
        SegmentOptionView::<A::V>::UTF8 { location }),
        option matches BitStringSegmentOption::UTF16 { location } ==> option.deep_view() == (
        SegmentOptionView::<A::V>::UTF16 { location }),
        option matches BitStringSegmentOption::UTF32 { location } ==> option.deep_view() == (
        SegmentOptionView::<A::V>::UTF32 { location }),
        option matches BitStringSegmentOption::UTF8Codepoint { location }
            ==> option.deep_view() == (SegmentOptionView::<A::V>::UTF8Codepoint { location }),
        option matches BitStringSegmentOption::UTF16Codepoint { location }
            ==> option.deep_view() == (SegmentOptionView::<A::V>::UTF16Codepoint { location }),
        option matches BitStringSegmentOption::UTF32Codepoint { location }
            ==> option.deep_view() == (SegmentOptionView::<A::V>::UTF32Codepoint { location }),
        option matches BitStringSegmentOption::Signed { location } ==> option.deep_view() == (
        SegmentOptionView::<A::V>::Signed { location }),
        option matches BitStringSegmentOption::Unsigned { location } ==> option.deep_view() == (
        SegmentOptionView::<A::V>::Unsigned { location }),
        option matches BitStringSegmentOption::Big { location } ==> option.deep_view() == (
        SegmentOptionView::<A::V>::Big { location }),
        option matches BitStringSegmentOption::Little { location } ==> option.deep_view() == (
        SegmentOptionView::<A::V>::Little { location }),
        option matches BitStringSegmentOption::Native { location } ==> option.deep_view() == (
        SegmentOptionView::<A::V>::Native { location }),
        option matches BitStringSegmentOption::Size { location, value, short_form }
            ==> option.deep_view() == (SegmentOptionView::Size {
            location,
            value: Box::new((*value).deep_view()),
            short_form,
        }),
        option matches BitStringSegmentOption::Unit { location, value, short_form }
            ==> option.deep_view() == (SegmentOptionView::Unit {
            location,
            value: Box::new((*value).deep_view()),
            short_form,
        }),
{
}

/// The parts of functions, clauses and definitions are modelled with all their parts.
pub proof fn other_parts_are_modelled_with_all_their_parts(
    names: ArgNames,
    arg: Arg,
    spread: RecordUpdateSpread,
    clause: Clause,
    update: UntypedRecordUpdateArg,
    constructor_arg: RecordConstructorArg,
    constructor: RecordConstructor,
    external_arg: ExternalFnArg,
    import: UnqualifiedImport,
    parser_arg: ParserArg,
)
    ensures
        names matches ArgNames::Discard { name } ==> names.deep_view() == (ArgNamesView::Discard {
            name: name@,
        }),
        names matches ArgNames::LabelledDiscard { label, name } ==> names.deep_view() == (
        ArgNamesView::LabelledDiscard { label: label@, name: name@ }),
        names matches ArgNames::Named { name } ==> names.deep_view() == (ArgNamesView::Named {
            name: name@,
        }),
        names matches ArgNames::NamedLabelled { name, label } ==> names.deep_view() == (
        ArgNamesView::NamedLabelled { name: name@, label: label@ }),
        arg.deep_view() == (ArgView {
            names: arg.names.deep_view(),
            location: arg.location,
            annotation: arg.annotation.deep_view(),
        }),
        spread.deep_view() == (SpreadView { name: spread.name@, location: spread.location }),
        clause matches Clause { location, pattern, alternative_patterns, guard, then }
            ==> clause.deep_view() == (ClauseView {
            location,
            pattern: pattern.deep_view(),
            alternative_patterns: alternative_patterns.deep_view(),
            guard: guard.deep_view(),
            then: then.deep_view(),
        }),
        update.deep_view() == (RecordUpdateArgView {
            label: update.label@,
            location: update.location,
            value: update.value.deep_view(),
        }),
        constructor_arg.deep_view() == (RecordConstructorArgView {
            label: constructor_arg.label.deep_view(),
            ast: constructor_arg.ast.deep_view(),
            location: constructor_arg.location,
        }),
        constructor.deep_view() == (RecordConstructorView {
            location: constructor.location,
            name: constructor.name@,
            args: constructor.args.deep_view(),
            documentation: constructor.documentation.deep_view(),
        }),
        external_arg.deep_view() == (ExternalFnArgView {
            location: external_arg.location,
            label: external_arg.label.deep_view(),
            annotation: external_arg.annotation.deep_view(),
        }),
        import.deep_view() == (UnqualifiedImportView {
            location: import.location,
            name: import.name@,
            as_name: import.as_name.deep_view(),
        }),
        parser_arg matches ParserArg::Arg(inner) ==> parser_arg.deep_view() == ParserArgView::Arg(
            inner.deep_view(),
        ),
        parser_arg matches ParserArg::Hole { location, label } ==> parser_arg.deep_view() == (
        ParserArgView::Hole { location, label: label.deep_view() }),
{
}

/// A definition is modelled with all its parts, each in its place.
pub proof fn definitions_are_modelled_with_all_their_parts(definition: Statement)
    ensures
        definition matches Statement::Fn {
            location,
            end_location,
            name,
            args,
            body,
            public,
            return_annotation,
            return_type: _,
            doc,
        }
            ==> definition.deep_view() == (StatementView::Fn {
            location,
            end_location,
            name: name@,
            args: args.deep_view(),
            body: body.deep_view(),
            public,
            return_annotation: return_annotation.deep_view(),
            doc: doc.deep_view(),
        }),
        definition matches Statement::TypeAlias {
            location,
            alias,
            args,
            resolved_type,
            public,
            typ: _,
            doc,
        }
            ==> definition.deep_view() == (StatementView::TypeAlias {
            location,
            alias: alias@,
            args: args.deep_view(),
            resolved_type: resolved_type.deep_view(),
            public,
            doc: doc.deep_view(),
        }),
        definition matches Statement::CustomType {
            location,
            name,
            parameters,
            public,
            constructors,
            doc,
            opaque,
            typed_parameters,
        }
            ==> definition.deep_view() == (StatementView::CustomType {
            location,
            name: name@,
            parameters: parameters.deep_view(),
            public,
            constructors: constructors.deep_view(),
            doc: doc.deep_view(),
            opaque,
            typed_parameters: typed_parameters@,
        }),
        definition matches Statement::ExternalFn {
            location,
            public,
            args,
            name,
            retrn,
            return_type: _,
            module,
            fun,
            doc,
        }
            ==> definition.deep_view() == (StatementView::ExternalFn {
            location,
            public,
            args: args.deep_view(),
            name: name@,
            retrn: retrn.deep_view(),
            module: module@,
            fun: fun@,
            doc: doc.deep_view(),
        }),
        definition matches Statement::ExternalType { location, public, name, args, doc }
            ==> definition.deep_view() == (StatementView::ExternalType {
            location,
            public,
            name: name@,
            args: args.deep_view(),
            doc: doc.deep_view(),
        }),
        definition matches Statement::Import { location, module, as_name, unqualified }
            ==> definition.deep_view() == (StatementView::Import {
            location,
            module: module.deep_view(),
            as_name: as_name.deep_view(),
            unqualified: unqualified.deep_view(),
        }),
        definition matches Statement::ModuleConstant {
            doc,
            location,
            public,
            name,
            annotation,
            value,
            typ: _,
        }
            ==> definition.deep_view() == (StatementView::ModuleConstant {
            doc: doc.deep_view(),
            location,
            public,
            name: name@,
            annotation: annotation.deep_view(),
            value: Box::new(value.deep_view()),
        }),
{
}

/// A module is modelled with all its definitions, and what stands beside it with all its parts.
pub proof fn modules_are_modelled_with_all_their_parts(module: Module, extra: ModuleExtra)
    ensures
        module.deep_view() == (ModuleView {
            name: module.name.deep_view(),
            documentation: module.documentation.deep_view(),
            statements: module.statements.deep_view(),
        }),
        extra@.module_comments == extra.module_comments@,
        extra@.doc_comments == extra.doc_comments@,
        extra@.comments == extra.comments@,
        extra@.empty_lines == extra.empty_lines@,
{
}

/// An error is modelled with its kind and its location, and the list of what was expected with all
/// its texts. A result is modelled as what it holds.
pub proof fn errors_are_modelled_with_all_their_parts<A: DeepView>(
    error: ParseError,
    result: Result<A, ParseError>,
)
    ensures
        error.deep_view().location == error.location,
        error.error matches ParseErrorType::UnexpectedToken { expected }
            ==> error.deep_view().fault == Fault::Expected(expected.deep_view()),
        !(error.error is UnexpectedToken) ==> error.deep_view().fault == Fault::Plain(error.error),
        result matches Ok(value) ==> outcome(result) == Ok::<_, ErrorView>(value.deep_view()),
        result matches Err(other) ==> outcome(result) == Err::<A::V, _>(other.deep_view()),
{
}

} // verus!
