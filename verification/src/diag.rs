//! Structured errors. Every failure of the transformation is reported as a
//! `Diagnostic`: an error kind, the span of the declaration tree or of the
//! configuration token list it is anchored to, a human-readable message, and
//! an optional usage note.

use vstd::prelude::*;

verus! {

/// What went wrong: a malformed or unrecognized configuration argument, a test
/// declaration that takes parameters, or a test for which the configuration
/// supplies no handler of the required role.
#[derive(Clone, Copy, PartialEq, Eq, Structural, Debug)]
pub enum ErrorKind {
    ConfigurationError,
    UnsupportedSignature,
    MissingHandler,
}

/// Where the error is anchored: a configuration token (by its index in the raw
/// token list), the parameter list of a named declaration, or a whole named
/// declaration.
#[derive(Clone, PartialEq, Eq, Debug)]
pub enum ErrSpan {
    ConfigToken(usize),
    ParamList(String),
    Decl(String),
}

/// One reported error.
#[derive(Clone, PartialEq, Eq, Debug)]
pub struct Diagnostic {
    pub kind: ErrorKind,
    pub span: ErrSpan,
    pub message: String,
    pub note: Option<String>,
}

/// Deep view of an `ErrSpan`.
pub enum ErrSpanV {
    ConfigToken(int),
    ParamList(Seq<char>),
    Decl(Seq<char>),
}

/// Deep view of a `Diagnostic`.
pub struct DiagnosticV {
    pub kind: ErrorKind,
    pub span: ErrSpanV,
    pub message: Seq<char>,
    pub note: Option<Seq<char>>,
}

impl DeepView for ErrSpan {
    type V = ErrSpanV;

    open spec fn deep_view(&self) -> ErrSpanV {
        match self {
            ErrSpan::ConfigToken(i) => ErrSpanV::ConfigToken(*i as int),
            ErrSpan::ParamList(n) => ErrSpanV::ParamList(n.deep_view()),
            ErrSpan::Decl(n) => ErrSpanV::Decl(n.deep_view()),
        }
    }
}

impl DeepView for Diagnostic {
    type V = DiagnosticV;

    open spec fn deep_view(&self) -> DiagnosticV {
        DiagnosticV {
            kind: self.kind,
            span: self.span.deep_view(),
            message: self.message.deep_view(),
            note: self.note.deep_view(),
        }
    }
}

/// The usage hint attached to errors whose fix is a configuration change.
pub open spec fn spec_usage() -> Seq<char> {
    "Usage is generally `#[wrap_tests(wrapper = your_fn)]`, or `#[wrap_tests(wrapper = your_fn, async_wrapper = your_fn_async)]` if you have async tests."@
}

/// The usage hint as an owned string.
pub fn usage() -> (s: String)
    ensures
        s@ == spec_usage(),
{
    String::from_str(
        "Usage is generally `#[wrap_tests(wrapper = your_fn)]`, or `#[wrap_tests(wrapper = your_fn, async_wrapper = your_fn_async)]` if you have async tests.",
    )
}

} // verus!
