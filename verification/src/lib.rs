//! A source-to-source rewriting engine that wraps test declarations in a
//! caller-supplied setup/teardown handler.
//!
//! Given the raw configuration tokens of an attribute invocation and a module
//! of declarations, [`wrap_tests`] rewrites every function declaration that
//! carries a recognized test marker so that its body nests the original test
//! (markers stripped, renamed) as a local item and hands it, as a bare
//! callable, to the configured handler — `wrapper` for ordinary tests,
//! `async_wrapper` for async ones, whose call is awaited. Everything else in
//! the module passes through untouched. On any violation the whole invocation
//! yields a diagnostic instead of a rewritten tree.
//!
//! Parsing source text into this declaration tree and rendering the rewritten
//! tree back into text are left to a front end and back end outside this
//! library.

use vstd::prelude::*;

pub mod ast;
pub mod classify;
pub mod config;
pub mod diag;
pub mod laws;
pub mod rewrite;
pub mod walk;

verus! {

/// Deep view of a `Result` whose two sides both have deep views.
pub open spec fn res_dv<T: DeepView, E: DeepView>(r: Result<T, E>) -> Result<T::V, E::V> {
    match r {
        Ok(t) => Ok(t.deep_view()),
        Err(e) => Err(e.deep_view()),
    }
}

/// What `wrap_tests` returns, as a function of the views of its inputs: the
/// configuration is parsed, and on success the module is walked and every
/// test-marked function declaration in it rewritten.
pub open spec fn spec_wrap_tests(tokens: Seq<config::TokenV>, m: ast::ModuleV) -> Result<
    ast::ModuleV,
    diag::DiagnosticV,
> {
    match config::spec_parse_args(tokens) {
        Err(d) => Err(d),
        Ok(cfg) => walk::spec_walk_module(m, cfg),
    }
}

/// The whole transformation: parse the raw configuration tokens, then rewrite
/// every test declaration of `module` around the configured handler. Either
/// every matched test is rewritten, or the first violation found is returned
/// and no tree is produced.
pub fn wrap_tests(tokens: &Vec<config::Token>, module: ast::Module) -> (r: Result<
    ast::Module,
    diag::Diagnostic,
>)
    ensures
        res_dv(r) == spec_wrap_tests(tokens.deep_view(), module.deep_view()),
{
    match config::parse_args(tokens) {
        Err(d) => Err(d),
        Ok(cfg) => walk::walk_module(module, &cfg),
    }
}


} // verus!
