//! What a module holds beside its tree: comments and blank lines.

use crate::ast::SrcSpan;
use vstd::prelude::*;

verus! {

/// The comments and blank lines of a module, each kind in the order of the source text.
#[derive(Debug, PartialEq, Eq)]
pub struct ModuleExtra {
    pub module_comments: Vec<SrcSpan>,
    pub doc_comments: Vec<SrcSpan>,
    pub comments: Vec<SrcSpan>,
    pub empty_lines: Vec<usize>,
}

/// The model of a [`ModuleExtra`].
#[verifier::ext_equal]
pub struct ExtraView {
    pub module_comments: Seq<SrcSpan>,
    pub doc_comments: Seq<SrcSpan>,
    pub comments: Seq<SrcSpan>,
    pub empty_lines: Seq<usize>,
}

impl View for ModuleExtra {
    type V = ExtraView;

    open spec fn view(&self) -> ExtraView {
        ExtraView {
            module_comments: self.module_comments@,
            doc_comments: self.doc_comments@,
            comments: self.comments@,
            empty_lines: self.empty_lines@,
        }
    }
}

impl ExtraView {
    /// No comments and no blank lines.
    pub open spec fn none() -> ExtraView {
        ExtraView {
            module_comments: Seq::empty(),
            doc_comments: Seq::empty(),
            comments: Seq::empty(),
            empty_lines: Seq::empty(),
        }
    }
}

impl ModuleExtra {
    /// No comments and no blank lines.
    pub fn new() -> (extra: ModuleExtra)
        ensures
            extra@ == ExtraView::none(),
    {
        ModuleExtra {
            module_comments: Vec::new(),
            doc_comments: Vec::new(),
            comments: Vec::new(),
            empty_lines: Vec::new(),
        }
    }
}

} // verus!
