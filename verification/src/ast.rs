//! The declaration tree that the rewriting engine works on.
//!
//! A front end (outside this library) parses source text into this shape and
//! renders the rewritten tree back out; the engine itself only ever sees these
//! plain values. Every node has a deep view into mathematical types
//! (`Seq<char>` for identifiers and raw text), which the contracts speak of.
//! The views of the recursive node types are defined by the named spec
//! functions below ([`stmt_dv`], [`fn_dv`], [`item_dv`], [`module_dv`]); the
//! `DeepView` impls are thin wrappers over them.

use vstd::prelude::*;

verus! {

/// An annotation attached to a declaration: a path of identifier segments and
/// an optional raw argument payload, carried verbatim and never interpreted.
#[derive(Clone, PartialEq, Eq, Debug)]
pub struct Attr {
    pub path: Vec<String>,
    pub args: Option<String>,
}

/// A statement of a function body. Statements the engine does not own are
/// carried verbatim; the two structured forms are the ones the rewriter
/// synthesizes: a nested function declaration and a handler invocation.
#[derive(PartialEq, Eq, Debug)]
pub enum Stmt {
    /// A statement carried through as raw source text, never interpreted.
    Verbatim(String),
    /// A function declaration standing as a local item.
    Item(FnDecl),
    /// A call of `handler` with the function named `callee` as its only
    /// argument; with `awaited` set, the call's result is awaited.
    Call { handler: String, callee: String, awaited: bool },
}

/// A function declaration: annotations, name, parameter list (each parameter
/// carried as verbatim text), an optional return-type descriptor, whether the
/// function is `async`, and its body.
#[derive(PartialEq, Eq, Debug)]
pub struct FnDecl {
    pub attrs: Vec<Attr>,
    pub name: String,
    pub params: Vec<String>,
    pub ret: Option<String>,
    pub is_async: bool,
    pub body: Vec<Stmt>,
}

/// One declaration of a module: a function, a nested module, or anything else
/// (types, constants, imports), the last carried verbatim.
#[derive(PartialEq, Eq, Debug)]
pub enum Item {
    Fn(FnDecl),
    Mod(Module),
    Other(String),
}

/// An ordered collection of declarations, possibly nested.
#[derive(PartialEq, Eq, Debug)]
pub struct Module {
    pub name: String,
    pub items: Vec<Item>,
}

/// Deep view of an `Attr`.
pub struct AttrV {
    pub path: Seq<Seq<char>>,
    pub args: Option<Seq<char>>,
}

/// Deep view of a `Stmt`.
pub enum StmtV {
    Verbatim(Seq<char>),
    Item(FnDeclV),
    Call { handler: Seq<char>, callee: Seq<char>, awaited: bool },
}

/// Deep view of a `FnDecl`.
pub struct FnDeclV {
    pub attrs: Seq<AttrV>,
    pub name: Seq<char>,
    pub params: Seq<Seq<char>>,
    pub ret: Option<Seq<char>>,
    pub is_async: bool,
    pub body: Seq<StmtV>,
}

/// Deep view of an `Item`.
pub enum ItemV {
    Fn(FnDeclV),
    Mod(ModuleV),
    Other(Seq<char>),
}

/// Deep view of a `Module`.
pub struct ModuleV {
    pub name: Seq<char>,
    pub items: Seq<ItemV>,
}

impl DeepView for Attr {
    type V = AttrV;

    open spec fn deep_view(&self) -> AttrV {
        AttrV { path: self.path.deep_view(), args: self.args.deep_view() }
    }
}

/// Deep view of one statement.
pub open spec fn stmt_dv(s: Stmt) -> StmtV
    decreases s, 0int,
{
    match s {
        Stmt::Verbatim(t) => StmtV::Verbatim(t@),
        Stmt::Item(f) => StmtV::Item(fn_dv(f)),
        Stmt::Call { handler, callee, awaited } => StmtV::Call {
            handler: handler@,
            callee: callee@,
            awaited: awaited,
        },
    }
}

/// Deep views of the statements of `v` from index `i` on.
pub open spec fn stmts_dv_from(v: Seq<Stmt>, i: int) -> Seq<StmtV>
    decreases v, v.len() - i,
{
    if 0 <= i < v.len() {
        seq![stmt_dv(v[i])] + stmts_dv_from(v, i + 1)
    } else {
        Seq::empty()
    }
}

/// Deep views of a statement sequence, elementwise.
pub open spec fn stmts_dv(v: Seq<Stmt>) -> Seq<StmtV>
    decreases v, v.len() + 1,
{
    stmts_dv_from(v, 0)
}

/// Deep view of one function declaration.
pub open spec fn fn_dv(f: FnDecl) -> FnDeclV
    decreases f, 0int,
{
    FnDeclV {
        attrs: f.attrs.deep_view(),
        name: f.name@,
        params: f.params.deep_view(),
        ret: f.ret.deep_view(),
        is_async: f.is_async,
        body: stmts_dv(f.body@),
    }
}

/// Deep view of one module item.
pub open spec fn item_dv(it: Item) -> ItemV
    decreases it, 0int,
{
    match it {
        Item::Fn(f) => ItemV::Fn(fn_dv(f)),
        Item::Mod(m) => ItemV::Mod(module_dv(m)),
        Item::Other(t) => ItemV::Other(t@),
    }
}

/// Deep views of the items of `v` from index `i` on.
pub open spec fn items_dv_from(v: Seq<Item>, i: int) -> Seq<ItemV>
    decreases v, v.len() - i,
{
    if 0 <= i < v.len() {
        seq![item_dv(v[i])] + items_dv_from(v, i + 1)
    } else {
        Seq::empty()
    }
}

/// Deep views of an item sequence, elementwise.
pub open spec fn items_dv(v: Seq<Item>) -> Seq<ItemV>
    decreases v, v.len() + 1,
{
    items_dv_from(v, 0)
}

/// Deep view of one module.
pub open spec fn module_dv(m: Module) -> ModuleV
    decreases m, 0int,
{
    ModuleV { name: m.name@, items: items_dv(m.items@) }
}

impl DeepView for Stmt {
    type V = StmtV;

    open spec fn deep_view(&self) -> StmtV {
        stmt_dv(*self)
    }
}

impl DeepView for FnDecl {
    type V = FnDeclV;

    open spec fn deep_view(&self) -> FnDeclV {
        fn_dv(*self)
    }
}

impl DeepView for Item {
    type V = ItemV;

    open spec fn deep_view(&self) -> ItemV {
        item_dv(*self)
    }
}

impl DeepView for Module {
    type V = ModuleV;

    open spec fn deep_view(&self) -> ModuleV {
        module_dv(*self)
    }
}

/// `stmts_dv_from(v, i)` views the elements `v[i..]`, one each, in order.
pub proof fn lemma_stmts_dv_from(v: Seq<Stmt>, i: int)
    requires
        0 <= i <= v.len(),
    ensures
        stmts_dv_from(v, i).len() == v.len() - i,
        forall|j: int|
            i <= j < v.len() ==> #[trigger] stmts_dv_from(v, i)[j - i] == stmt_dv(v[j]),
    decreases v.len() - i,
{
    if i < v.len() {
        lemma_stmts_dv_from(v, i + 1);
        assert forall|j: int| i <= j < v.len() implies #[trigger] stmts_dv_from(v, i)[j - i]
            == stmt_dv(v[j]) by {
            if j > i {
                assert(stmts_dv_from(v, i)[j - i] == stmts_dv_from(v, i + 1)[j - (i + 1)]);
            }
        }
    }
}

/// `stmts_dv` views the statements elementwise, in order.
pub proof fn lemma_stmts_dv(v: Seq<Stmt>)
    ensures
        stmts_dv(v).len() == v.len(),
        forall|j: int| 0 <= j < v.len() ==> #[trigger] stmts_dv(v)[j] == stmt_dv(v[j]),
{
    lemma_stmts_dv_from(v, 0);
    assert forall|j: int| 0 <= j < v.len() implies #[trigger] stmts_dv(v)[j] == stmt_dv(v[j]) by {
        assert(stmts_dv_from(v, 0)[j - 0] == stmt_dv(v[j]));
    }
}

/// `items_dv_from(v, i)` views the elements `v[i..]`, one each, in order.
pub proof fn lemma_items_dv_from(v: Seq<Item>, i: int)
    requires
        0 <= i <= v.len(),
    ensures
        items_dv_from(v, i).len() == v.len() - i,
        forall|j: int|
            i <= j < v.len() ==> #[trigger] items_dv_from(v, i)[j - i] == item_dv(v[j]),
    decreases v.len() - i,
{
    if i < v.len() {
        lemma_items_dv_from(v, i + 1);
        assert forall|j: int| i <= j < v.len() implies #[trigger] items_dv_from(v, i)[j - i]
            == item_dv(v[j]) by {
            if j > i {
                assert(items_dv_from(v, i)[j - i] == items_dv_from(v, i + 1)[j - (i + 1)]);
            }
        }
    }
}

/// `items_dv` views the items elementwise, in order.
pub proof fn lemma_items_dv(v: Seq<Item>)
    ensures
        items_dv(v).len() == v.len(),
        forall|j: int| 0 <= j < v.len() ==> #[trigger] items_dv(v)[j] == item_dv(v[j]),
{
    lemma_items_dv_from(v, 0);
    assert forall|j: int| 0 <= j < v.len() implies #[trigger] items_dv(v)[j] == item_dv(v[j]) by {
        assert(items_dv_from(v, 0)[j - 0] == item_dv(v[j]));
    }
}

} // verus!
