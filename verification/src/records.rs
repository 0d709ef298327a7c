//! The records that the backend answers with, and their mathematical views.

use vstd::prelude::*;

verus! {

/// One cross-reference edge: a site that refers to the target asked for,
/// with the function that holds the site.
pub struct Reference {
    pub from: u64,
    pub ref_type: String,
    pub perm: String,
    pub opcode: String,
    pub fcn_addr: u64,
    pub fcn_name: String,
    pub refname: String,
}

/// The view of a [`Reference`].
pub struct ReferenceView {
    pub from: u64,
    pub ref_type: Seq<char>,
    pub perm: Seq<char>,
    pub opcode: Seq<char>,
    pub fcn_addr: u64,
    pub fcn_name: Seq<char>,
    pub refname: Seq<char>,
}

impl View for Reference {
    type V = ReferenceView;

    open spec fn view(&self) -> ReferenceView {
        ReferenceView {
            from: self.from,
            ref_type: self.ref_type@,
            perm: self.perm@,
            opcode: self.opcode@,
            fcn_addr: self.fcn_addr,
            fcn_name: self.fcn_name@,
            refname: self.refname@,
        }
    }
}

impl DeepView for Reference {
    type V = ReferenceView;

    open spec fn deep_view(&self) -> ReferenceView {
        self@
    }
}

/// A span of decompiled text with its kind. An annotation that marks a call
/// names the called function and carries its address.
pub struct Annotation {
    pub start: u32,
    pub end: u32,
    pub a_type: String,
    pub syntax_highlight: Option<String>,
    pub offset: Option<u64>,
    pub name: Option<String>,
}

/// The view of an [`Annotation`].
pub struct AnnotationView {
    pub start: u32,
    pub end: u32,
    pub a_type: Seq<char>,
    pub syntax_highlight: Option<Seq<char>>,
    pub offset: Option<u64>,
    pub name: Option<Seq<char>>,
}

/// The view of a string that may be absent.
pub open spec fn text_of(text: Option<String>) -> Option<Seq<char>> {
    match text {
        Some(s) => Some(s@),
        None => None,
    }
}

impl View for Annotation {
    type V = AnnotationView;

    open spec fn view(&self) -> AnnotationView {
        AnnotationView {
            start: self.start,
            end: self.end,
            a_type: self.a_type@,
            syntax_highlight: text_of(self.syntax_highlight),
            offset: self.offset,
            name: text_of(self.name),
        }
    }
}

impl DeepView for Annotation {
    type V = AnnotationView;

    open spec fn deep_view(&self) -> AnnotationView {
        self@
    }
}

/// The pseudocode of one function with its annotations, in the order of the
/// backend's answer.
pub struct Decompile {
    pub code: String,
    pub annotations: Vec<Annotation>,
}

/// The view of a [`Decompile`].
pub struct DecompileView {
    pub code: Seq<char>,
    pub annotations: Seq<AnnotationView>,
}

impl View for Decompile {
    type V = DecompileView;

    open spec fn view(&self) -> DecompileView {
        DecompileView { code: self.code@, annotations: self.annotations.deep_view() }
    }
}

impl DeepView for Decompile {
    type V = DecompileView;

    open spec fn deep_view(&self) -> DecompileView {
        self@
    }
}

/// One dynamically linked symbol with the address of its call stub.
pub struct Import {
    pub ordinal: u32,
    pub bind: String,
    pub i_type: String,
    pub name: String,
    pub plt: u64,
}

/// The view of an [`Import`].
pub struct ImportView {
    pub ordinal: u32,
    pub bind: Seq<char>,
    pub i_type: Seq<char>,
    pub name: Seq<char>,
    pub plt: u64,
}

impl View for Import {
    type V = ImportView;

    open spec fn view(&self) -> ImportView {
        ImportView {
            ordinal: self.ordinal,
            bind: self.bind@,
            i_type: self.i_type@,
            name: self.name@,
            plt: self.plt,
        }
    }
}

impl DeepView for Import {
    type V = ImportView;

    open spec fn deep_view(&self) -> ImportView {
        self@
    }
}

/// What came back for a query.
pub enum Reply {
    /// The cross-references to the target.
    References(Vec<Reference>),
    /// The decompiled function.
    Decompilation(Decompile),
    /// The import table.
    Imports(Vec<Import>),
    /// The backend could not be reached, or did not answer in its format.
    Unreachable,
    /// The answer did not have the shape of the record asked for.
    Malformed,
}

/// The view of a [`Reply`].
pub enum ReplyView {
    References(Seq<ReferenceView>),
    Decompilation(DecompileView),
    Imports(Seq<ImportView>),
    Unreachable,
    Malformed,
}

impl View for Reply {
    type V = ReplyView;

    open spec fn view(&self) -> ReplyView {
        match self {
            Reply::References(refs) => ReplyView::References(refs.deep_view()),
            Reply::Decompilation(dec) => ReplyView::Decompilation(dec@),
            Reply::Imports(imports) => ReplyView::Imports(imports.deep_view()),
            Reply::Unreachable => ReplyView::Unreachable,
            Reply::Malformed => ReplyView::Malformed,
        }
    }
}

} // verus!
