//! The body rewriter: given a test-marked function declaration and the
//! configuration, synthesizes the new body.
//!
//! The new body nests the original declaration as a local item — renamed to
//! avoid a collision with the outer declaration, and with every recognized
//! test marker stripped so no downstream harness discovers the copy — and then
//! hands that inner function, by name, as the single bare argument to the
//! configured handler: `wrapper` for an ordinary test, `async_wrapper`
//! (awaited) for an async one. Name, parameter list, return-type descriptor,
//! async-ness flag and marker set of the outer declaration stay exactly as
//! written.
//!
//! A test declaration that takes parameters is rejected with
//! `UnsupportedSignature`; a test whose required handler the configuration
//! does not supply is rejected with `MissingHandler`.

use vstd::prelude::*;
use vstd::string::StringExecFns;

use crate::ast::{Attr, AttrV, FnDecl, FnDeclV, Stmt, StmtV};
use crate::classify::spec_is_test_marker;
use crate::config::{Config, ConfigV};
use crate::diag::{Diagnostic, DiagnosticV, ErrSpan, ErrSpanV, ErrorKind};
use crate::res_dv;

verus! {

/// The annotations of the first `i` elements of `attrs` with every recognized
/// test marker left out, in order.
pub open spec fn spec_strip_prefix(attrs: Seq<AttrV>, i: int) -> Seq<AttrV>
    decreases i,
{
    if i <= 0 {
        Seq::empty()
    } else if spec_is_test_marker(attrs[i - 1]) {
        spec_strip_prefix(attrs, i - 1)
    } else {
        spec_strip_prefix(attrs, i - 1).push(attrs[i - 1])
    }
}

/// The annotation set with every recognized test marker left out.
pub open spec fn spec_strip_markers(attrs: Seq<AttrV>) -> Seq<AttrV> {
    spec_strip_prefix(attrs, attrs.len() as int)
}

/// The name given to the nested copy of a rewritten test.
pub open spec fn spec_inner_name(name: Seq<char>) -> Seq<char> {
    "wrapped_"@ + name
}

/// The inner declaration nested into a rewritten body: the original, renamed,
/// with the recognized test markers stripped and everything else unchanged.
pub open spec fn spec_inner_decl(f: FnDeclV) -> FnDeclV {
    FnDeclV {
        attrs: spec_strip_markers(f.attrs),
        name: spec_inner_name(f.name),
        params: f.params,
        ret: f.ret,
        is_async: f.is_async,
        body: f.body,
    }
}

/// A rewritten test declaration: the outer signature and marker set as
/// originally written, the body replaced by the inner declaration followed by
/// the handler call — awaited exactly when the declaration is async — whose
/// result is the body's result.
pub open spec fn spec_rewritten_decl(f: FnDeclV, handler: Seq<char>) -> FnDeclV {
    FnDeclV {
        attrs: f.attrs,
        name: f.name,
        params: f.params,
        ret: f.ret,
        is_async: f.is_async,
        body: seq![
            StmtV::Item(spec_inner_decl(f)),
            StmtV::Call {
                handler: handler,
                callee: spec_inner_name(f.name),
                awaited: f.is_async,
            },
        ],
    }
}

/// The `UnsupportedSignature` error for the test named `name`, anchored at its
/// parameter list.
pub open spec fn spec_diag_unsupported_signature(name: Seq<char>) -> DiagnosticV {
    DiagnosticV {
        kind: ErrorKind::UnsupportedSignature,
        span: ErrSpanV::ParamList(name),
        message: "wraptest: Test functions that take arguments aren't supported"@,
        note: Some(crate::diag::spec_usage()),
    }
}

/// The `MissingHandler` error for the test named `name`, anchored at the whole
/// declaration and naming the configuration key that was expected.
pub open spec fn spec_diag_missing_handler(name: Seq<char>, is_async: bool) -> DiagnosticV {
    DiagnosticV {
        kind: ErrorKind::MissingHandler,
        span: ErrSpanV::Decl(name),
        message: if is_async {
            "wraptest: Must specify `async_wrapper` to wrap async test functions"@
        } else {
            "wraptest: Must specify `wrapper` to wrap test functions"@
        },
        note: Some(crate::diag::spec_usage()),
    }
}

/// What rewriting a test-marked declaration yields: the rewritten declaration,
/// or `UnsupportedSignature` if it takes parameters, or `MissingHandler` if
/// the handler its execution mode requires is not configured.
pub open spec fn spec_rewrite_test(f: FnDeclV, cfg: ConfigV) -> Result<FnDeclV, DiagnosticV> {
    if f.params.len() != 0 {
        Err(spec_diag_unsupported_signature(f.name))
    } else if f.is_async {
        match cfg.async_wrapper {
            Some(h) => Ok(spec_rewritten_decl(f, h)),
            None => Err(spec_diag_missing_handler(f.name, true)),
        }
    } else {
        match cfg.wrapper {
            Some(h) => Ok(spec_rewritten_decl(f, h)),
            None => Err(spec_diag_missing_handler(f.name, false)),
        }
    }
}

/// Copies an annotation.
fn clone_attr(a: &Attr) -> (r: Attr)
    ensures
        r.deep_view() == a.deep_view(),
{
    let mut path: Vec<String> = Vec::new();
    let mut i: usize = 0;
    while i < a.path.len()
        invariant
            i <= a.path.len(),
            path@.len() == i,
            forall|k: int| 0 <= k < i ==> #[trigger] path@[k]@ == a.path@[k]@,
        decreases a.path.len() - i,
    {
        path.push(a.path[i].clone());
        i = i + 1;
    }
    let args = match &a.args {
        Some(s) => Some(s.clone()),
        None => None,
    };
    let r = Attr { path, args };
    proof {
        assert(r.deep_view().path =~= a.deep_view().path);
        assert(r.deep_view().args == a.deep_view().args);
    }
    r
}

/// The annotation set with every recognized test marker left out, the others
/// copied in order.
fn strip_markers(attrs: &Vec<Attr>) -> (r: Vec<Attr>)
    ensures
        r.deep_view() == spec_strip_markers(attrs.deep_view()),
{
    let mut out: Vec<Attr> = Vec::new();
    let mut i: usize = 0;
    while i < attrs.len()
        invariant
            i <= attrs.len(),
            out.deep_view() == spec_strip_prefix(attrs.deep_view(), i as int),
        decreases attrs.len() - i,
    {
        let ghost pre = out.deep_view();
        if !crate::classify::is_test_marker(&attrs[i]) {
            let a = clone_attr(&attrs[i]);
            out.push(a);
            proof {
                assert(out.deep_view() =~= pre.push(attrs.deep_view()[i as int]));
            }
        }
        i = i + 1;
    }
    proof {
        assert(attrs.deep_view().len() == attrs@.len());
    }
    out
}

/// The name of the nested copy: the original name behind a fixed prefix.
pub fn inner_name(name: &String) -> (r: String)
    ensures
        r@ == spec_inner_name(name@),
{
    let mut s = String::from_str("wrapped_");
    s.append(name.as_str());
    s
}

/// Copies an optional string.
fn clone_opt_string(o: &Option<String>) -> (r: Option<String>)
    ensures
        r.deep_view() == o.deep_view(),
{
    match o {
        Some(s) => Some(s.clone()),
        None => None,
    }
}

/// Rewrites one test-marked declaration around the configured handler, per
/// [`spec_rewrite_test`]: rejects a parameter-taking test and a test whose
/// required handler is absent; otherwise nests the stripped, renamed original
/// and calls the handler on it, leaving the outer signature and markers as
/// they were.
pub fn rewrite_test(f: FnDecl, cfg: &Config) -> (r: Result<FnDecl, Diagnostic>)
    ensures
        res_dv(r) == spec_rewrite_test(f.deep_view(), cfg.deep_view()),
{
    let ghost fv = f.deep_view();
    if f.params.len() != 0 {
        return Err(Diagnostic {
            kind: ErrorKind::UnsupportedSignature,
            span: ErrSpan::ParamList(f.name.clone()),
            message: String::from_str("wraptest: Test functions that take arguments aren't supported"),
            note: Some(crate::diag::usage()),
        });
    }
    let handler: &Option<String> = if f.is_async {
        &cfg.async_wrapper
    } else {
        &cfg.wrapper
    };
    let h: String = match handler {
        Some(h) => h.clone(),
        None => {
            return Err(Diagnostic {
                kind: ErrorKind::MissingHandler,
                span: ErrSpan::Decl(f.name.clone()),
                message: if f.is_async {
                    String::from_str("wraptest: Must specify `async_wrapper` to wrap async test functions")
                } else {
                    String::from_str("wraptest: Must specify `wrapper` to wrap test functions")
                },
                note: Some(crate::diag::usage()),
            });
        },
    };
    let FnDecl { attrs, name, params, ret, is_async, body } = f;
    let stripped = strip_markers(&attrs);
    let iname = inner_name(&name);
    let callee = iname.clone();
    let inner = FnDecl {
        attrs: stripped,
        name: iname,
        params: Vec::new(),
        ret: clone_opt_string(&ret),
        is_async,
        body,
    };
    proof {
        assert(inner.deep_view().params =~= fv.params);
        assert(inner.deep_view() == spec_inner_decl(fv));
    }
    let ghost hv = h@;
    let ghost inner_v = inner.deep_view();
    let new_body: Vec<Stmt> = vec![
        Stmt::Item(inner),
        Stmt::Call { handler: h, callee, awaited: is_async },
    ];
    let out = FnDecl { attrs, name, params, ret, is_async, body: new_body };
    proof {
        crate::ast::lemma_stmts_dv(new_body@);
        assert(out.deep_view().body =~= seq![
            StmtV::Item(inner_v),
            StmtV::Call { handler: hv, callee: spec_inner_name(fv.name), awaited: fv.is_async },
        ]);
        assert(out.deep_view() == spec_rewritten_decl(fv, hv));
    }
    Ok(out)
}

} // verus!
