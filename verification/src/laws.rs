//! The properties the engine is held to, each proved once and for all from
//! the specifications of the parser, the classifier, the rewriter and the
//! walker.

use vstd::prelude::*;

use crate::ast::{AttrV, FnDeclV, ItemV, ModuleV, StmtV};
use crate::classify::{spec_has_test_marker, spec_is_test_marker};
use crate::diag::ErrorKind;
use crate::config::{spec_parse_args_from, ConfigV, TokenV};
use crate::rewrite::{spec_inner_name, spec_rewrite_test, spec_rewritten_decl, spec_strip_prefix};
use crate::walk::{
    spec_walk_fn, spec_walk_item, spec_walk_items, spec_walk_module, spec_walk_stmt,
    spec_walk_stmts,
};

verus! {

/// No declaration in this function's subtree — itself, or any function
/// declaration nested in its body — carries a recognized test marker.
pub open spec fn spec_fn_subtree_untested(f: FnDeclV) -> bool
    decreases f, 1int,
{
    !spec_has_test_marker(f.attrs) && spec_stmts_untested(f.body)
}

/// No function declaration nested in this statement carries a test marker.
pub open spec fn spec_stmt_untested(st: StmtV) -> bool
    decreases st, 0int,
{
    match st {
        StmtV::Item(f) => spec_fn_subtree_untested(f),
        _ => true,
    }
}

/// No function declaration nested in these statements carries a test marker.
pub open spec fn spec_stmts_untested(ss: Seq<StmtV>) -> bool
    decreases ss, 0int,
{
    ss.len() == 0 || (spec_stmt_untested(ss[0]) && spec_stmts_untested(
        ss.subrange(1, ss.len() as int),
    ))
}

/// No function declaration in this item's subtree carries a test marker.
pub open spec fn spec_item_untested(it: ItemV) -> bool
    decreases it, 1int,
{
    match it {
        ItemV::Fn(f) => spec_fn_subtree_untested(f),
        ItemV::Mod(m) => spec_module_untested(m),
        ItemV::Other(_) => true,
    }
}

/// No function declaration in these items' subtrees carries a test marker.
pub open spec fn spec_items_untested(items: Seq<ItemV>) -> bool
    decreases items, 0int,
{
    items.len() == 0 || (spec_item_untested(items[0]) && spec_items_untested(
        items.subrange(1, items.len() as int),
    ))
}

/// No function declaration anywhere in this module carries a test marker.
pub open spec fn spec_module_untested(m: ModuleV) -> bool
    decreases m, 0int,
{
    spec_items_untested(m.items)
}

/// No-op on untested functions: walking a function declaration whose subtree
/// holds no test-marked declaration returns it unchanged.
pub proof fn lemma_walk_fn_no_op(f: FnDeclV, cfg: ConfigV)
    requires
        spec_fn_subtree_untested(f),
    ensures
        spec_walk_fn(f, cfg) == Ok::<FnDeclV, crate::diag::DiagnosticV>(f),
    decreases f, 1int,
{
    lemma_walk_stmts_no_op(f.body, cfg);
    assert(FnDeclV {
        attrs: f.attrs,
        name: f.name,
        params: f.params,
        ret: f.ret,
        is_async: f.is_async,
        body: f.body,
    } == f);
}

/// No-op on untested statements.
pub proof fn lemma_walk_stmt_no_op(st: StmtV, cfg: ConfigV)
    requires
        spec_stmt_untested(st),
    ensures
        spec_walk_stmt(st, cfg) == Ok::<StmtV, crate::diag::DiagnosticV>(st),
    decreases st, 0int,
{
    match st {
        StmtV::Item(f) => lemma_walk_fn_no_op(f, cfg),
        _ => {},
    }
}

/// No-op on untested statement sequences.
pub proof fn lemma_walk_stmts_no_op(ss: Seq<StmtV>, cfg: ConfigV)
    requires
        spec_stmts_untested(ss),
    ensures
        spec_walk_stmts(ss, cfg) == Ok::<Seq<StmtV>, crate::diag::DiagnosticV>(ss),
    decreases ss, 0int,
{
    if ss.len() > 0 {
        lemma_walk_stmt_no_op(ss[0], cfg);
        lemma_walk_stmts_no_op(ss.subrange(1, ss.len() as int), cfg);
        assert(seq![ss[0]] + ss.subrange(1, ss.len() as int) =~= ss);
    } else {
        assert(ss =~= Seq::<StmtV>::empty());
    }
}

/// No-op on untested items.
pub proof fn lemma_walk_item_no_op(it: ItemV, cfg: ConfigV)
    requires
        spec_item_untested(it),
    ensures
        spec_walk_item(it, cfg) == Ok::<ItemV, crate::diag::DiagnosticV>(it),
    decreases it, 1int,
{
    match it {
        ItemV::Fn(f) => lemma_walk_fn_no_op(f, cfg),
        ItemV::Mod(m) => lemma_walk_module_no_op(m, cfg),
        ItemV::Other(_) => {},
    }
}

/// No-op on untested item sequences.
pub proof fn lemma_walk_items_no_op(items: Seq<ItemV>, cfg: ConfigV)
    requires
        spec_items_untested(items),
    ensures
        spec_walk_items(items, cfg) == Ok::<Seq<ItemV>, crate::diag::DiagnosticV>(items),
    decreases items, 0int,
{
    if items.len() > 0 {
        lemma_walk_item_no_op(items[0], cfg);
        lemma_walk_items_no_op(items.subrange(1, items.len() as int), cfg);
        assert(seq![items[0]] + items.subrange(1, items.len() as int) =~= items);
    } else {
        assert(items =~= Seq::<ItemV>::empty());
    }
}

/// The no-op law: for a module containing no test-marked function declaration
/// at any nesting depth, the walker's output is identical to its input,
/// whatever the configuration.
pub proof fn lemma_walk_module_no_op(m: ModuleV, cfg: ConfigV)
    requires
        spec_module_untested(m),
    ensures
        spec_walk_module(m, cfg) == Ok::<ModuleV, crate::diag::DiagnosticV>(m),
    decreases m, 0int,
{
    lemma_walk_items_no_op(m.items, cfg);
    assert(ModuleV { name: m.name, items: m.items } == m);
}

/// The signature-preservation law: whenever walking a function declaration
/// succeeds — whether or not it was rewritten — its name, parameter list,
/// return-type descriptor and async-ness flag are exactly those of the input;
/// and on a rewritten declaration (one carrying a test marker) the marker set
/// is also exactly the input's.
pub proof fn lemma_signature_preserved(f: FnDeclV, cfg: ConfigV)
    requires
        spec_walk_fn(f, cfg) is Ok,
    ensures
        (spec_walk_fn(f, cfg)->Ok_0).name == f.name,
        (spec_walk_fn(f, cfg)->Ok_0).params == f.params,
        (spec_walk_fn(f, cfg)->Ok_0).ret == f.ret,
        (spec_walk_fn(f, cfg)->Ok_0).is_async == f.is_async,
        spec_has_test_marker(f.attrs) ==> (spec_walk_fn(f, cfg)->Ok_0).attrs == f.attrs,
{
}

/// How many of these statements invoke the function named `callee`.
pub open spec fn spec_count_calls_to(body: Seq<StmtV>, callee: Seq<char>) -> nat
    decreases body,
{
    if body.len() == 0 {
        0
    } else {
        (match body[0] {
            StmtV::Call { callee: c, .. } => if c == callee {
                1nat
            } else {
                0nat
            },
            _ => 0nat,
        }) + spec_count_calls_to(body.subrange(1, body.len() as int), callee)
    }
}

/// The single-invocation law: a rewritten body consists of the nested inner
/// declaration followed by exactly one statement invoking it — the handler
/// call — so the original test body is invoked exactly once, never zero or
/// two times.
pub proof fn lemma_single_invocation(f: FnDeclV, handler: Seq<char>)
    ensures
        spec_rewritten_decl(f, handler).body.len() == 2,
        spec_rewritten_decl(f, handler).body[0] == StmtV::Item(
            crate::rewrite::spec_inner_decl(f),
        ),
        spec_count_calls_to(spec_rewritten_decl(f, handler).body, spec_inner_name(f.name)) == 1,
{
    let b = spec_rewritten_decl(f, handler).body;
    assert(b.subrange(1, 2)[0] == b[1]);
    assert(b.subrange(1, 2).subrange(1, 1) =~= Seq::<StmtV>::empty());
    reveal_with_fuel(spec_count_calls_to, 3);
}

/// Nothing stripped keeps a marker, and nothing else is lost: every
/// annotation of the stripped prefix comes from the input, in order, and none
/// of them is a recognized test marker.
pub proof fn lemma_strip_prefix_clean(attrs: Seq<AttrV>, i: int)
    requires
        i <= attrs.len(),
    ensures
        forall|j: int|
            0 <= j < spec_strip_prefix(attrs, i).len() ==> !spec_is_test_marker(
                #[trigger] spec_strip_prefix(attrs, i)[j],
            ),
    decreases i,
{
    if i > 0 {
        lemma_strip_prefix_clean(attrs, i - 1);
        let pre = spec_strip_prefix(attrs, i - 1);
        assert forall|j: int|
            0 <= j < spec_strip_prefix(attrs, i).len() implies !spec_is_test_marker(
            #[trigger] spec_strip_prefix(attrs, i)[j],
        ) by {
            if !spec_is_test_marker(attrs[i - 1]) {
                assert(spec_strip_prefix(attrs, i) == pre.push(attrs[i - 1]));
                if j < pre.len() {
                    assert(spec_strip_prefix(attrs, i)[j] == pre[j]);
                } else {
                    assert(spec_strip_prefix(attrs, i)[j] == attrs[i - 1]);
                }
            }
        }
    }
}

/// The marker-hygiene law: the inner, nested copy of a rewritten test carries
/// no recognized test marker, while the outer declaration's marker set is
/// exactly as originally written.
pub proof fn lemma_marker_hygiene(f: FnDeclV, handler: Seq<char>)
    ensures
        spec_rewritten_decl(f, handler).attrs == f.attrs,
        forall|j: int|
            0 <= j < crate::rewrite::spec_inner_decl(f).attrs.len() ==> !spec_is_test_marker(
                #[trigger] crate::rewrite::spec_inner_decl(f).attrs[j],
            ),
{
    lemma_strip_prefix_clean(f.attrs, f.attrs.len() as int);
}

/// Whether the rewriter must reject this test declaration under this
/// configuration: it takes parameters, or the handler its execution mode
/// requires is not configured. This depends only on the declaration's
/// signature, never on its body.
pub open spec fn spec_rewrite_rejected(f: FnDeclV, cfg: ConfigV) -> bool {
    f.params.len() != 0 || (f.is_async && cfg.async_wrapper is None) || (!f.is_async
        && cfg.wrapper is None)
}

/// Some test-marked declaration satisfying `p` stands in this function's
/// subtree: the function itself, or one nested in its body.
pub open spec fn spec_fn_has_test(f: FnDeclV, p: spec_fn(FnDeclV) -> bool) -> bool
    decreases f, 1int,
{
    (spec_has_test_marker(f.attrs) && p(f)) || spec_stmts_have_test(f.body, p)
}

/// Some test-marked declaration satisfying `p` is nested in this statement.
pub open spec fn spec_stmt_has_test(st: StmtV, p: spec_fn(FnDeclV) -> bool) -> bool
    decreases st, 0int,
{
    match st {
        StmtV::Item(f) => spec_fn_has_test(f, p),
        _ => false,
    }
}

/// Some test-marked declaration satisfying `p` is nested in these statements.
pub open spec fn spec_stmts_have_test(ss: Seq<StmtV>, p: spec_fn(FnDeclV) -> bool) -> bool
    decreases ss, 0int,
{
    ss.len() > 0 && (spec_stmt_has_test(ss[0], p) || spec_stmts_have_test(
        ss.subrange(1, ss.len() as int),
        p,
    ))
}

/// Some test-marked declaration satisfying `p` stands in this item's subtree.
pub open spec fn spec_item_has_test(it: ItemV, p: spec_fn(FnDeclV) -> bool) -> bool
    decreases it, 1int,
{
    match it {
        ItemV::Fn(f) => spec_fn_has_test(f, p),
        ItemV::Mod(m) => spec_module_has_test(m, p),
        ItemV::Other(_) => false,
    }
}

/// Some test-marked declaration satisfying `p` stands in these items.
pub open spec fn spec_items_have_test(items: Seq<ItemV>, p: spec_fn(FnDeclV) -> bool) -> bool
    decreases items, 0int,
{
    items.len() > 0 && (spec_item_has_test(items[0], p) || spec_items_have_test(
        items.subrange(1, items.len() as int),
        p,
    ))
}

/// Some test-marked declaration satisfying `p` stands somewhere in this
/// module, at any nesting depth.
pub open spec fn spec_module_has_test(m: ModuleV, p: spec_fn(FnDeclV) -> bool) -> bool
    decreases m, 0int,
{
    spec_items_have_test(m.items, p)
}

/// Walking a function whose subtree holds a test the configuration must
/// reject fails.
pub proof fn lemma_rejected_test_fails_fn(f: FnDeclV, cfg: ConfigV, p: spec_fn(FnDeclV) -> bool)
    requires
        spec_fn_has_test(f, p),
        forall|g: FnDeclV| #[trigger] p(g) ==> spec_rewrite_rejected(g, cfg),
    ensures
        spec_walk_fn(f, cfg) is Err,
    decreases f, 1int,
{
    if spec_stmts_have_test(f.body, p) {
        lemma_rejected_test_fails_stmts(f.body, cfg, p);
    }
}

/// Walking a statement nesting a test the configuration must reject fails.
pub proof fn lemma_rejected_test_fails_stmt(st: StmtV, cfg: ConfigV, p: spec_fn(FnDeclV) -> bool)
    requires
        spec_stmt_has_test(st, p),
        forall|g: FnDeclV| #[trigger] p(g) ==> spec_rewrite_rejected(g, cfg),
    ensures
        spec_walk_stmt(st, cfg) is Err,
    decreases st, 0int,
{
    match st {
        StmtV::Item(f) => lemma_rejected_test_fails_fn(f, cfg, p),
        _ => {},
    }
}

/// Walking statements nesting a test the configuration must reject fails.
pub proof fn lemma_rejected_test_fails_stmts(
    ss: Seq<StmtV>,
    cfg: ConfigV,
    p: spec_fn(FnDeclV) -> bool,
)
    requires
        spec_stmts_have_test(ss, p),
        forall|g: FnDeclV| #[trigger] p(g) ==> spec_rewrite_rejected(g, cfg),
    ensures
        spec_walk_stmts(ss, cfg) is Err,
    decreases ss, 0int,
{
    if spec_stmt_has_test(ss[0], p) {
        lemma_rejected_test_fails_stmt(ss[0], cfg, p);
    } else {
        lemma_rejected_test_fails_stmts(ss.subrange(1, ss.len() as int), cfg, p);
    }
}

/// Walking an item holding a test the configuration must reject fails.
pub proof fn lemma_rejected_test_fails_item(it: ItemV, cfg: ConfigV, p: spec_fn(FnDeclV) -> bool)
    requires
        spec_item_has_test(it, p),
        forall|g: FnDeclV| #[trigger] p(g) ==> spec_rewrite_rejected(g, cfg),
    ensures
        spec_walk_item(it, cfg) is Err,
    decreases it, 1int,
{
    match it {
        ItemV::Fn(f) => lemma_rejected_test_fails_fn(f, cfg, p),
        ItemV::Mod(m) => lemma_rejected_test_fails_module(m, cfg, p),
        ItemV::Other(_) => {},
    }
}

/// Walking items holding a test the configuration must reject fails.
pub proof fn lemma_rejected_test_fails_items(
    items: Seq<ItemV>,
    cfg: ConfigV,
    p: spec_fn(FnDeclV) -> bool,
)
    requires
        spec_items_have_test(items, p),
        forall|g: FnDeclV| #[trigger] p(g) ==> spec_rewrite_rejected(g, cfg),
    ensures
        spec_walk_items(items, cfg) is Err,
    decreases items, 0int,
{
    if spec_item_has_test(items[0], p) {
        lemma_rejected_test_fails_item(items[0], cfg, p);
    } else {
        lemma_rejected_test_fails_items(items.subrange(1, items.len() as int), cfg, p);
    }
}

/// Walking a module holding a test the configuration must reject fails: the
/// transformation yields a diagnostic and no rewritten tree.
pub proof fn lemma_rejected_test_fails_module(
    m: ModuleV,
    cfg: ConfigV,
    p: spec_fn(FnDeclV) -> bool,
)
    requires
        spec_module_has_test(m, p),
        forall|g: FnDeclV| #[trigger] p(g) ==> spec_rewrite_rejected(g, cfg),
    ensures
        spec_walk_module(m, cfg) is Err,
    decreases m, 0int,
{
    lemma_rejected_test_fails_items(m.items, cfg, p);
}

/// The async-test predicate, for stating the missing-handler law.
pub open spec fn spec_async_decl() -> spec_fn(FnDeclV) -> bool {
    |g: FnDeclV| g.is_async
}

/// The parameter-taking predicate, for stating the unsupported-signature law.
pub open spec fn spec_param_decl() -> spec_fn(FnDeclV) -> bool {
    |g: FnDeclV| g.params.len() != 0
}

/// The missing-handler rejection law: a module containing, at any depth, an
/// async test-marked declaration cannot be rewritten by a configuration that
/// supplies no `async_wrapper` — the walk yields a diagnostic and no tree.
pub proof fn lemma_missing_async_handler_rejected(m: ModuleV, cfg: ConfigV)
    requires
        cfg.async_wrapper is None,
        spec_module_has_test(m, spec_async_decl()),
    ensures
        spec_walk_module(m, cfg) is Err,
{
    assert forall|g: FnDeclV| #[trigger] spec_async_decl()(g) implies spec_rewrite_rejected(
        g,
        cfg,
    ) by {}
    lemma_rejected_test_fails_module(m, cfg, spec_async_decl());
}

/// The parameterized-test rejection law: a module containing, at any depth, a
/// test-marked declaration that takes parameters is rejected under every
/// configuration — the walk yields a diagnostic and no tree.
pub proof fn lemma_parameterized_test_rejected(m: ModuleV, cfg: ConfigV)
    requires
        spec_module_has_test(m, spec_param_decl()),
    ensures
        spec_walk_module(m, cfg) is Err,
{
    assert forall|g: FnDeclV| #[trigger] spec_param_decl()(g) implies spec_rewrite_rejected(
        g,
        cfg,
    ) by {}
    lemma_rejected_test_fails_module(m, cfg, spec_param_decl());
}

/// The duplicate-key law: when the raw token list parses successfully and its
/// last `name = value` pair names `wrapper`, the parsed configuration's
/// `wrapper` is that pair's value — of several occurrences of one key, the
/// last one wins, whatever came before.
pub proof fn lemma_last_key_wins(toks: Seq<TokenV>, i: int, acc: ConfigV)
    requires
        0 <= i,
        toks.len() >= i + 3,
        toks[toks.len() - 3] == TokenV::Ident("wrapper"@),
        toks[toks.len() - 2] == TokenV::Equals,
        toks[toks.len() - 1] is Ident,
        spec_parse_args_from(toks, i, acc) is Ok,
    ensures
        (spec_parse_args_from(toks, i, acc)->Ok_0).wrapper == Some(
            toks[toks.len() - 1]->Ident_0,
        ),
    decreases toks.len() - i,
{
    let n = toks.len() as int;
    if i < n - 3 {
        let name = toks[i]->Ident_0;
        let value = toks[i + 2]->Ident_0;
        let acc2 = if name == "wrapper"@ {
            ConfigV { wrapper: Some(value), async_wrapper: acc.async_wrapper }
        } else {
            ConfigV { wrapper: acc.wrapper, async_wrapper: Some(value) }
        };
        lemma_last_key_wins(toks, i + 4, acc2);
    }
}

/// Every diagnostic the walker itself emits comes from rewriting some
/// test-marked declaration, so its kind is pinned by the tree and the
/// configuration: where no test takes parameters, a failure is a
/// `MissingHandler`; where both handlers are configured, a failure is an
/// `UnsupportedSignature`.
pub proof fn lemma_walk_fn_err_kind(f: FnDeclV, cfg: ConfigV)
    ensures
        (!spec_fn_has_test(f, spec_param_decl()) && spec_walk_fn(f, cfg) is Err) ==> (spec_walk_fn(
            f,
            cfg,
        )->Err_0).kind == ErrorKind::MissingHandler,
        (cfg.wrapper is Some && cfg.async_wrapper is Some && spec_walk_fn(f, cfg) is Err) ==> (
        spec_walk_fn(f, cfg)->Err_0).kind == ErrorKind::UnsupportedSignature,
    decreases f, 1int,
{
    lemma_walk_stmts_err_kind(f.body, cfg);
}

/// As [`lemma_walk_fn_err_kind`], for one statement.
pub proof fn lemma_walk_stmt_err_kind(st: StmtV, cfg: ConfigV)
    ensures
        (!spec_stmt_has_test(st, spec_param_decl()) && spec_walk_stmt(st, cfg) is Err) ==> (
        spec_walk_stmt(st, cfg)->Err_0).kind == ErrorKind::MissingHandler,
        (cfg.wrapper is Some && cfg.async_wrapper is Some && spec_walk_stmt(st, cfg) is Err) ==> (
        spec_walk_stmt(st, cfg)->Err_0).kind == ErrorKind::UnsupportedSignature,
    decreases st, 0int,
{
    match st {
        StmtV::Item(f) => lemma_walk_fn_err_kind(f, cfg),
        _ => {},
    }
}

/// As [`lemma_walk_fn_err_kind`], for a statement sequence.
pub proof fn lemma_walk_stmts_err_kind(ss: Seq<StmtV>, cfg: ConfigV)
    ensures
        (!spec_stmts_have_test(ss, spec_param_decl()) && spec_walk_stmts(ss, cfg) is Err) ==> (
        spec_walk_stmts(ss, cfg)->Err_0).kind == ErrorKind::MissingHandler,
        (cfg.wrapper is Some && cfg.async_wrapper is Some && spec_walk_stmts(ss, cfg) is Err)
            ==> (spec_walk_stmts(ss, cfg)->Err_0).kind == ErrorKind::UnsupportedSignature,
    decreases ss, 0int,
{
    if ss.len() > 0 {
        lemma_walk_stmt_err_kind(ss[0], cfg);
        lemma_walk_stmts_err_kind(ss.subrange(1, ss.len() as int), cfg);
    }
}

/// As [`lemma_walk_fn_err_kind`], for one item.
pub proof fn lemma_walk_item_err_kind(it: ItemV, cfg: ConfigV)
    ensures
        (!spec_item_has_test(it, spec_param_decl()) && spec_walk_item(it, cfg) is Err) ==> (
        spec_walk_item(it, cfg)->Err_0).kind == ErrorKind::MissingHandler,
        (cfg.wrapper is Some && cfg.async_wrapper is Some && spec_walk_item(it, cfg) is Err) ==> (
        spec_walk_item(it, cfg)->Err_0).kind == ErrorKind::UnsupportedSignature,
    decreases it, 1int,
{
    match it {
        ItemV::Fn(f) => lemma_walk_fn_err_kind(f, cfg),
        ItemV::Mod(m) => lemma_walk_module_err_kind(m, cfg),
        ItemV::Other(_) => {},
    }
}

/// As [`lemma_walk_fn_err_kind`], for an item sequence.
pub proof fn lemma_walk_items_err_kind(items: Seq<ItemV>, cfg: ConfigV)
    ensures
        (!spec_items_have_test(items, spec_param_decl()) && spec_walk_items(items, cfg) is Err)
            ==> (spec_walk_items(items, cfg)->Err_0).kind == ErrorKind::MissingHandler,
        (cfg.wrapper is Some && cfg.async_wrapper is Some && spec_walk_items(items, cfg) is Err)
            ==> (spec_walk_items(items, cfg)->Err_0).kind == ErrorKind::UnsupportedSignature,
    decreases items, 0int,
{
    if items.len() > 0 {
        lemma_walk_item_err_kind(items[0], cfg);
        lemma_walk_items_err_kind(items.subrange(1, items.len() as int), cfg);
    }
}

/// As [`lemma_walk_fn_err_kind`], for a whole module.
pub proof fn lemma_walk_module_err_kind(m: ModuleV, cfg: ConfigV)
    ensures
        (!spec_module_has_test(m, spec_param_decl()) && spec_walk_module(m, cfg) is Err) ==> (
        spec_walk_module(m, cfg)->Err_0).kind == ErrorKind::MissingHandler,
        (cfg.wrapper is Some && cfg.async_wrapper is Some && spec_walk_module(m, cfg) is Err)
            ==> (spec_walk_module(m, cfg)->Err_0).kind == ErrorKind::UnsupportedSignature,
    decreases m, 0int,
{
    lemma_walk_items_err_kind(m.items, cfg);
}

/// The missing-handler rejection law, with the kind pinned: a module holding
/// an async test, none of whose tests takes parameters, rewritten under a
/// configuration without `async_wrapper`, yields a `MissingHandler`
/// diagnostic and no tree.
pub proof fn lemma_missing_async_handler_diagnosed(m: ModuleV, cfg: ConfigV)
    requires
        cfg.async_wrapper is None,
        spec_module_has_test(m, spec_async_decl()),
        !spec_module_has_test(m, spec_param_decl()),
    ensures
        spec_walk_module(m, cfg) is Err,
        (spec_walk_module(m, cfg)->Err_0).kind == ErrorKind::MissingHandler,
{
    lemma_missing_async_handler_rejected(m, cfg);
    lemma_walk_module_err_kind(m, cfg);
}

/// The parameterized-test rejection law, with the kind pinned: a module
/// holding a parameter-taking test, rewritten under a configuration that
/// supplies both handlers, yields an `UnsupportedSignature` diagnostic and no
/// tree.
pub proof fn lemma_parameterized_test_diagnosed(m: ModuleV, cfg: ConfigV)
    requires
        cfg.wrapper is Some,
        cfg.async_wrapper is Some,
        spec_module_has_test(m, spec_param_decl()),
    ensures
        spec_walk_module(m, cfg) is Err,
        (spec_walk_module(m, cfg)->Err_0).kind == ErrorKind::UnsupportedSignature,
{
    lemma_parameterized_test_rejected(m, cfg);
    lemma_walk_module_err_kind(m, cfg);
}

/// A successful walk rewrites elementwise: the output has one item for each
/// input item, in order, each the result of walking that input item alone.
pub proof fn lemma_walk_items_elementwise(items: Seq<ItemV>, cfg: ConfigV)
    requires
        spec_walk_items(items, cfg) is Ok,
    ensures
        (spec_walk_items(items, cfg)->Ok_0).len() == items.len(),
        forall|j: int|
            0 <= j < items.len() ==> spec_walk_item(#[trigger] items[j], cfg) == Ok::<
                ItemV,
                crate::diag::DiagnosticV,
            >((spec_walk_items(items, cfg)->Ok_0)[j]),
    decreases items.len(),
{
    if items.len() > 0 {
        let tail = items.subrange(1, items.len() as int);
        lemma_walk_items_elementwise(tail, cfg);
        let out = spec_walk_items(items, cfg)->Ok_0;
        let tail_out = spec_walk_items(tail, cfg)->Ok_0;
        assert forall|j: int| 0 <= j < items.len() implies spec_walk_item(
            #[trigger] items[j],
            cfg,
        ) == Ok::<ItemV, crate::diag::DiagnosticV>(out[j]) by {
            if j > 0 {
                assert(items[j] == tail[j - 1]);
                assert(out[j] == tail_out[j - 1]);
            }
        }
    }
}

/// Unmatched structure untouched: when the whole walk succeeds, an item whose
/// subtree holds no test-marked declaration comes back identical — even while
/// other items of the same module are rewritten.
pub proof fn lemma_untested_item_untouched(items: Seq<ItemV>, cfg: ConfigV, j: int)
    requires
        spec_walk_items(items, cfg) is Ok,
        0 <= j < items.len(),
        spec_item_untested(items[j]),
    ensures
        (spec_walk_items(items, cfg)->Ok_0)[j] == items[j],
{
    lemma_walk_items_elementwise(items, cfg);
    lemma_walk_item_no_op(items[j], cfg);
}

} // verus!
