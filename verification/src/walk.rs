//! The tree walker: applies the classifier and the body rewriter to every
//! function declaration reachable inside the target module, at every nesting
//! depth — nested modules and function declarations standing as local items
//! included — in document order, children before the declaration that holds
//! them. Non-test declarations and everything that is not a function pass
//! through unmodified. On the first violation the walk stops and the whole
//! transformation yields that diagnostic and no tree.

use vstd::prelude::*;

use crate::ast::{
    fn_dv, item_dv, items_dv, lemma_items_dv, lemma_stmts_dv, module_dv, stmt_dv, stmts_dv, FnDecl,
    FnDeclV, Item, ItemV, Module, ModuleV, Stmt, StmtV,
};
use crate::classify::spec_has_test_marker;
use crate::config::{Config, ConfigV};
use crate::diag::{Diagnostic, DiagnosticV};
use crate::res_dv;
use crate::rewrite::spec_rewrite_test;

verus! {

/// Walking one statement: a nested function declaration is walked; every
/// other statement passes through unchanged.
pub open spec fn spec_walk_stmt(st: StmtV, cfg: ConfigV) -> Result<StmtV, DiagnosticV>
    decreases st, 0int,
{
    match st {
        StmtV::Item(f) => match spec_walk_fn(f, cfg) {
            Ok(g) => Ok(StmtV::Item(g)),
            Err(e) => Err(e),
        },
        _ => Ok(st),
    }
}

/// Walking a statement sequence in order, stopping at the first violation.
pub open spec fn spec_walk_stmts(ss: Seq<StmtV>, cfg: ConfigV) -> Result<Seq<StmtV>, DiagnosticV>
    decreases ss, 0int,
{
    if ss.len() == 0 {
        Ok(Seq::empty())
    } else {
        match spec_walk_stmt(ss[0], cfg) {
            Err(e) => Err(e),
            Ok(s2) => match spec_walk_stmts(ss.subrange(1, ss.len() as int), cfg) {
                Err(e) => Err(e),
                Ok(tail) => Ok(seq![s2] + tail),
            },
        }
    }
}

/// Walking one function declaration: its body's nested declarations first,
/// then — exactly when the declaration carries a recognized test marker — the
/// rewrite itself.
pub open spec fn spec_walk_fn(f: FnDeclV, cfg: ConfigV) -> Result<FnDeclV, DiagnosticV>
    decreases f, 1int,
{
    match spec_walk_stmts(f.body, cfg) {
        Err(e) => Err(e),
        Ok(body2) => {
            let f2 = FnDeclV {
                attrs: f.attrs,
                name: f.name,
                params: f.params,
                ret: f.ret,
                is_async: f.is_async,
                body: body2,
            };
            if spec_has_test_marker(f.attrs) {
                spec_rewrite_test(f2, cfg)
            } else {
                Ok(f2)
            }
        },
    }
}

/// Walking one module item: functions and nested modules are walked, anything
/// else passes through unchanged.
pub open spec fn spec_walk_item(it: ItemV, cfg: ConfigV) -> Result<ItemV, DiagnosticV>
    decreases it, 1int,
{
    match it {
        ItemV::Fn(f) => match spec_walk_fn(f, cfg) {
            Ok(g) => Ok(ItemV::Fn(g)),
            Err(e) => Err(e),
        },
        ItemV::Mod(m) => match spec_walk_module(m, cfg) {
            Ok(m2) => Ok(ItemV::Mod(m2)),
            Err(e) => Err(e),
        },
        ItemV::Other(t) => Ok(ItemV::Other(t)),
    }
}

/// Walking an item sequence in order, stopping at the first violation.
pub open spec fn spec_walk_items(items: Seq<ItemV>, cfg: ConfigV) -> Result<Seq<ItemV>, DiagnosticV>
    decreases items, 0int,
{
    if items.len() == 0 {
        Ok(Seq::empty())
    } else {
        match spec_walk_item(items[0], cfg) {
            Err(e) => Err(e),
            Ok(it2) => match spec_walk_items(items.subrange(1, items.len() as int), cfg) {
                Err(e) => Err(e),
                Ok(tail) => Ok(seq![it2] + tail),
            },
        }
    }
}

/// Walking a whole module: its items, in order, at every depth.
pub open spec fn spec_walk_module(m: ModuleV, cfg: ConfigV) -> Result<ModuleV, DiagnosticV>
    decreases m, 0int,
{
    match spec_walk_items(m.items, cfg) {
        Err(e) => Err(e),
        Ok(items2) => Ok(ModuleV { name: m.name, items: items2 }),
    }
}

/// Walks one statement, per [`spec_walk_stmt`].
pub fn walk_stmt(st: Stmt, cfg: &Config) -> (r: Result<Stmt, Diagnostic>)
    ensures
        res_dv(r) == spec_walk_stmt(stmt_dv(st), cfg.deep_view()),
    decreases stmt_dv(st), 0int,
{
    match st {
        Stmt::Item(f) => match walk_fn(f, cfg) {
            Ok(g) => Ok(Stmt::Item(g)),
            Err(e) => Err(e),
        },
        other => Ok(other),
    }
}

/// Walks the statements of one body, in order, per [`spec_walk_stmts`].
pub fn walk_stmts(stmts: Vec<Stmt>, cfg: &Config) -> (r: Result<Vec<Stmt>, Diagnostic>)
    ensures
        match r {
            Ok(v) => spec_walk_stmts(stmts_dv(stmts@), cfg.deep_view()) == Ok::<
                Seq<StmtV>,
                DiagnosticV,
            >(stmts_dv(v@)),
            Err(e) => spec_walk_stmts(stmts_dv(stmts@), cfg.deep_view()) == Err::<
                Seq<StmtV>,
                DiagnosticV,
            >(e.deep_view()),
        },
    decreases stmts_dv(stmts@), 0int,
{
    let ghost ss0 = stmts@;
    let ghost sv = stmts_dv(ss0);
    proof {
        lemma_stmts_dv(ss0);
    }
    let mut rest = stmts;
    if rest.len() == 0 {
        proof {
            assert(stmts_dv(rest@) =~= Seq::<StmtV>::empty());
        }
        return Ok(rest);
    }
    let first = rest.remove(0);
    let ghost tail_seq = ss0.subrange(1, ss0.len() as int);
    proof {
        assert(rest@ =~= tail_seq);
        lemma_stmts_dv(tail_seq);
        assert(stmts_dv(tail_seq) =~= sv.subrange(1, sv.len() as int));
        assert(decreases_to!(sv => sv[0]));
    }
    match walk_stmt(first, cfg) {
        Err(e) => Err(e),
        Ok(s2) => {
            match walk_stmts(rest, cfg) {
                Err(e) => Err(e),
                Ok(tail) => {
                    let ghost t0 = tail@;
                    let ghost s2v = stmt_dv(s2);
                    let mut out = tail;
                    out.insert(0, s2);
                    proof {
                        lemma_stmts_dv(t0);
                        lemma_stmts_dv(out@);
                        assert(stmts_dv(out@) =~= seq![s2v] + stmts_dv(t0));
                    }
                    Ok(out)
                },
            }
        },
    }
}

/// Walks one function declaration, per [`spec_walk_fn`].
pub fn walk_fn(f: FnDecl, cfg: &Config) -> (r: Result<FnDecl, Diagnostic>)
    ensures
        res_dv(r) == spec_walk_fn(fn_dv(f), cfg.deep_view()),
    decreases fn_dv(f), 1int,
{
    let ghost fv = fn_dv(f);
    let FnDecl { attrs, name, params, ret, is_async, body } = f;
    match walk_stmts(body, cfg) {
        Err(e) => Err(e),
        Ok(body2) => {
            let f2 = FnDecl { attrs, name, params, ret, is_async, body: body2 };
            proof {
                assert(fn_dv(f2) == FnDeclV {
                    attrs: fv.attrs,
                    name: fv.name,
                    params: fv.params,
                    ret: fv.ret,
                    is_async: fv.is_async,
                    body: stmts_dv(body2@),
                });
            }
            if crate::classify::is_test_fn(&f2) {
                crate::rewrite::rewrite_test(f2, cfg)
            } else {
                Ok(f2)
            }
        },
    }
}

/// Walks one module item, per [`spec_walk_item`].
pub fn walk_item(it: Item, cfg: &Config) -> (r: Result<Item, Diagnostic>)
    ensures
        res_dv(r) == spec_walk_item(item_dv(it), cfg.deep_view()),
    decreases item_dv(it), 1int,
{
    match it {
        Item::Fn(f) => match walk_fn(f, cfg) {
            Ok(g) => Ok(Item::Fn(g)),
            Err(e) => Err(e),
        },
        Item::Mod(m) => match walk_module(m, cfg) {
            Ok(m2) => Ok(Item::Mod(m2)),
            Err(e) => Err(e),
        },
        other => Ok(other),
    }
}

/// Walks the items of one scope, in order, per [`spec_walk_items`].
pub fn walk_items(items: Vec<Item>, cfg: &Config) -> (r: Result<Vec<Item>, Diagnostic>)
    ensures
        match r {
            Ok(v) => spec_walk_items(items_dv(items@), cfg.deep_view()) == Ok::<
                Seq<ItemV>,
                DiagnosticV,
            >(items_dv(v@)),
            Err(e) => spec_walk_items(items_dv(items@), cfg.deep_view()) == Err::<
                Seq<ItemV>,
                DiagnosticV,
            >(e.deep_view()),
        },
    decreases items_dv(items@), 0int,
{
    let ghost is0 = items@;
    let ghost iv = items_dv(is0);
    proof {
        lemma_items_dv(is0);
    }
    let mut rest = items;
    if rest.len() == 0 {
        proof {
            assert(items_dv(rest@) =~= Seq::<ItemV>::empty());
        }
        return Ok(rest);
    }
    let first = rest.remove(0);
    let ghost tail_seq = is0.subrange(1, is0.len() as int);
    proof {
        assert(rest@ =~= tail_seq);
        lemma_items_dv(tail_seq);
        assert(items_dv(tail_seq) =~= iv.subrange(1, iv.len() as int));
        assert(decreases_to!(iv => iv[0]));
    }
    match walk_item(first, cfg) {
        Err(e) => Err(e),
        Ok(it2) => {
            match walk_items(rest, cfg) {
                Err(e) => Err(e),
                Ok(tail) => {
                    let ghost t0 = tail@;
                    let ghost it2v = item_dv(it2);
                    let mut out = tail;
                    out.insert(0, it2);
                    proof {
                        lemma_items_dv(t0);
                        lemma_items_dv(out@);
                        assert(items_dv(out@) =~= seq![it2v] + items_dv(t0));
                    }
                    Ok(out)
                },
            }
        },
    }
}

/// Walks a whole module, per [`spec_walk_module`]: rewrites every test-marked
/// function declaration at every depth and leaves everything else exactly as
/// it was.
pub fn walk_module(m: Module, cfg: &Config) -> (r: Result<Module, Diagnostic>)
    ensures
        res_dv(r) == spec_walk_module(module_dv(m), cfg.deep_view()),
    decreases module_dv(m), 0int,
{
    let ghost mv = module_dv(m);
    let Module { name, items } = m;
    match walk_items(items, cfg) {
        Err(e) => Err(e),
        Ok(items2) => Ok(Module { name, items: items2 }),
    }
}

} // verus!
