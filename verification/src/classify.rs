//! The declaration classifier: decides whether a function declaration is a
//! test case — it carries a recognized test marker — and whether it runs
//! synchronously or asynchronously.
//!
//! Two marker shapes are recognized, matched structurally on the path
//! segments alone (a marker's own arguments are never examined): the bare
//! unit-test marker `test`, and the two-segment async test-runner marker
//! `tokio::test`. Async-ness is read from the declaration's own `async` flag,
//! not from which marker matched.

use vstd::prelude::*;

use crate::ast::{Attr, AttrV, FnDecl};
use crate::config::string_eq_lit;

verus! {

/// What the classifier returns for a declaration.
#[derive(Clone, Copy, PartialEq, Eq, Structural, Debug)]
pub enum Classification {
    NotATest,
    SyncTest,
    AsyncTest,
}

/// The bare unit-test marker: the single path segment `test`.
pub open spec fn spec_is_unit_marker(a: AttrV) -> bool {
    a.path.len() == 1 && a.path[0] == "test"@
}

/// The async test-runner marker: the two path segments `tokio::test`.
pub open spec fn spec_is_async_runner_marker(a: AttrV) -> bool {
    a.path.len() == 2 && a.path[0] == "tokio"@ && a.path[1] == "test"@
}

/// A recognized test marker, of either shape.
pub open spec fn spec_is_test_marker(a: AttrV) -> bool {
    spec_is_unit_marker(a) || spec_is_async_runner_marker(a)
}

/// Whether some annotation of the set is a recognized test marker.
pub open spec fn spec_has_test_marker(attrs: Seq<AttrV>) -> bool {
    exists|k: int| 0 <= k < attrs.len() && spec_is_test_marker(#[trigger] attrs[k])
}

/// The classification of a declaration: a test if it carries a recognized
/// marker, async by its own flag.
pub open spec fn spec_classify(f: crate::ast::FnDeclV) -> Classification {
    if !spec_has_test_marker(f.attrs) {
        Classification::NotATest
    } else if f.is_async {
        Classification::AsyncTest
    } else {
        Classification::SyncTest
    }
}

/// Whether this annotation is a recognized test marker.
pub fn is_test_marker(a: &Attr) -> (r: bool)
    ensures
        r == spec_is_test_marker(a.deep_view()),
{
    if a.path.len() == 1 {
        string_eq_lit(&a.path[0], "test")
    } else if a.path.len() == 2 {
        string_eq_lit(&a.path[0], "tokio") && string_eq_lit(&a.path[1], "test")
    } else {
        false
    }
}

/// Whether this declaration carries a recognized test marker.
pub fn is_test_fn(f: &FnDecl) -> (r: bool)
    ensures
        r == spec_has_test_marker(f.deep_view().attrs),
{
    let mut i: usize = 0;
    while i < f.attrs.len()
        invariant
            i <= f.attrs.len(),
            forall|k: int| 0 <= k < i ==> !spec_is_test_marker(#[trigger] f.attrs.deep_view()[k]),
        decreases f.attrs.len() - i,
    {
        if is_test_marker(&f.attrs[i]) {
            assert(spec_is_test_marker(f.attrs.deep_view()[i as int]));
            return true;
        }
        i = i + 1;
    }
    false
}

/// Classifies this declaration.
pub fn classify(f: &FnDecl) -> (c: Classification)
    ensures
        c == spec_classify(f.deep_view()),
{
    if !is_test_fn(f) {
        Classification::NotATest
    } else if f.is_async {
        Classification::AsyncTest
    } else {
        Classification::SyncTest
    }
}

} // verus!
