use crate::ast::{
    block_model, decl_model, decls_model, expr_model, exprs_model, pats_model, prop_model,
    stmt_model, stmts_model, Block, BlockM, DeclM, Declarator, Expr, ExprM, Ident, IdentM,
    ImportDecl, ImportM, item_model, import_model, ItemM, MemberProp, Module, ModuleItem, Pat, PatM, PropM, Stmt, StmtM,
};
use crate::deps::{deps_of, extract_deps};
use crate::hooks::{ignored_stmts, HookSets, IgnoredHooksExtractor};
use crate::imports::{bound_by, ImportsExtractor};
use crate::keys::IdentKeySet;
use vstd::prelude::*;

verus! {

broadcast use vstd::std_specs::vec::group_vec_axioms;

/// What the rewrite of a node depends on: the bindings of `autorun` and of
/// the hooks, the anchor block and the bindings it excludes.
pub struct Env {
    pub autorun: Set<Seq<char>>,
    pub hooks: HookSets,
    pub anchor: u32,
    pub ignored: Set<Seq<char>>,
}

/// `() => [p0, p1, ...]`: a thunk returning one reference per path.
pub open spec fn thunk_of(ps: Seq<Seq<char>>) -> ExprM {
    ExprM::Arrow(
        Seq::empty(),
        Box::new(
            ExprM::Array(Seq::new(ps.len(), |i: int| ExprM::Ident(IdentM { sym: ps[i], ctxt: 0 }))),
        ),
    )
}

pub open spec fn is_callback(e: ExprM) -> bool {
    e is Func || e is Arrow
}

/// Whether a call with arguments `args` is an autorun call: a callback, then an
/// identifier bound to the `autorun` export.
pub open spec fn is_autorun_call(args: Seq<ExprM>, autorun: Set<Seq<char>>) -> bool {
    &&& args.len() >= 2
    &&& is_callback(args[0])
    &&& args[1] matches ExprM::Ident(i) && autorun.contains(i.sym)
}

/// `e` with every autorun call in it rewritten.
pub open spec fn rw_expr(e: ExprM, env: Env) -> ExprM
    decreases e,
{
    match e {
        ExprM::Member(o, p) => ExprM::Member(Box::new(rw_expr(*o, env)), rw_prop(p, env)),
        ExprM::Call(c, args) => {
            let args2 = rw_exprs(args, env);
            ExprM::Call(
                Box::new(rw_expr(*c, env)),
                if is_autorun_call(args, env.autorun) {
                    args2.update(1, thunk_of(deps_of(args[0], env.anchor, env.ignored)))
                } else {
                    args2
                },
            )
        },
        ExprM::Func(ps, b) => ExprM::Func(ps, rw_block(b, env)),
        ExprM::Arrow(ps, body) => ExprM::Arrow(ps, Box::new(rw_expr(*body, env))),
        ExprM::Array(es) => ExprM::Array(rw_exprs(es, env)),
        ExprM::Other(es) => ExprM::Other(rw_exprs(es, env)),
        _ => e,
    }
}

pub open spec fn rw_prop(p: PropM, env: Env) -> PropM
    decreases p,
{
    match p {
        PropM::Computed(e) => PropM::Computed(Box::new(rw_expr(*e, env))),
        _ => p,
    }
}

pub open spec fn rw_exprs(s: Seq<ExprM>, env: Env) -> Seq<ExprM>
    decreases s,
{
    Seq::new(s.len(), |i: int| if 0 <= i < s.len() { rw_expr(s[i], env) } else { arbitrary() })
}

/// The environment inside block `b`: `b` is the anchor, with its own excluded bindings.
pub open spec fn block_env(b: BlockM, env: Env) -> Env {
    Env { anchor: b.ctxt, ignored: ignored_stmts(b.stmts, env.hooks), ..env }
}

pub open spec fn rw_block(b: BlockM, env: Env) -> BlockM
    decreases b,
{
    BlockM { ctxt: b.ctxt, stmts: rw_stmts(b.stmts, block_env(b, env)) }
}

pub open spec fn rw_stmt(s: StmtM, env: Env) -> StmtM
    decreases s,
{
    match s {
        StmtM::Expr(e) => StmtM::Expr(rw_expr(e, env)),
        StmtM::Block(b) => StmtM::Block(rw_block(b, env)),
        StmtM::Var(ds) => StmtM::Var(rw_decls(ds, env)),
        StmtM::Other(es, ss) => StmtM::Other(rw_exprs(es, env), rw_stmts(ss, env)),
    }
}

pub open spec fn rw_stmts(s: Seq<StmtM>, env: Env) -> Seq<StmtM>
    decreases s,
{
    Seq::new(s.len(), |i: int| if 0 <= i < s.len() { rw_stmt(s[i], env) } else { arbitrary() })
}

pub open spec fn rw_decl(d: DeclM, env: Env) -> DeclM
    decreases d,
{
    DeclM {
        name: d.name,
        init: match d.init {
            Some(e) => Some(rw_expr(e, env)),
            None => None,
        },
    }
}

pub open spec fn rw_decls(s: Seq<DeclM>, env: Env) -> Seq<DeclM>
    decreases s,
{
    Seq::new(s.len(), |i: int| if 0 <= i < s.len() { rw_decl(s[i], env) } else { arbitrary() })
}

/// The (export, module) pairs whose bindings are tracked.
pub struct ImportNames {
    pub autorun: (Seq<char>, Seq<char>),
    pub state: (Seq<char>, Seq<char>),
    pub reducer: (Seq<char>, Seq<char>),
    pub refs: (Seq<char>, Seq<char>),
}

/// The tracked bindings at one point of a module.
pub struct Trackers {
    pub autorun: Set<Seq<char>>,
    pub hooks: HookSets,
}

pub open spec fn default_names() -> ImportNames {
    ImportNames {
        autorun: ("autorun"@, "react-autorun"@),
        state: ("useState"@, "react"@),
        reducer: ("useReducer"@, "react"@),
        refs: ("useRef"@, "react"@),
    }
}

pub open spec fn no_trackers() -> Trackers {
    Trackers {
        autorun: Set::empty(),
        hooks: HookSets { state: Set::empty(), reducer: Set::empty(), refs: Set::empty() },
    }
}

/// The trackers after the import declaration `d`.
pub open spec fn observe(t: Trackers, d: ImportM, n: ImportNames) -> Trackers {
    Trackers {
        autorun: t.autorun.union(bound_by(d, n.autorun.0, n.autorun.1)),
        hooks: HookSets {
            state: t.hooks.state.union(bound_by(d, n.state.0, n.state.1)),
            reducer: t.hooks.reducer.union(bound_by(d, n.reducer.0, n.reducer.1)),
            refs: t.hooks.refs.union(bound_by(d, n.refs.0, n.refs.1)),
        },
    }
}

/// The trackers after the first `k` items, starting from `t0`.
pub open spec fn trackers_after(items: Seq<ItemM>, k: int, n: ImportNames, t0: Trackers) -> Trackers
    decreases k,
{
    if k <= 0 {
        t0
    } else {
        let t = trackers_after(items, k - 1, n, t0);
        match items[k - 1] {
            ItemM::Import(d) => observe(t, d, n),
            ItemM::Stmt(_) => t,
        }
    }
}

/// The environment of a top-level statement: no anchor block yet.
pub open spec fn top_env(t: Trackers) -> Env {
    Env { autorun: t.autorun, hooks: t.hooks, anchor: 0, ignored: Set::empty() }
}

pub open spec fn rw_item(it: ItemM, t: Trackers) -> ItemM {
    match it {
        ItemM::Import(_) => it,
        ItemM::Stmt(s) => ItemM::Stmt(rw_stmt(s, top_env(t))),
    }
}

/// A module with every autorun call in it rewritten; each statement sees the
/// imports that come before it.
pub open spec fn transform_items(items: Seq<ItemM>, n: ImportNames, t0: Trackers) -> Seq<ItemM> {
    Seq::new(items.len(), |i: int| rw_item(items[i], trackers_after(items, i, n, t0)))
}

/// The scope that a rewrite runs in: the anchor block's id and the bindings it excludes.
pub struct Scope {
    pub ctxt: u32,
    pub ignored: IdentKeySet,
}

/// Rewrites autorun calls so that their dependency lists are derived.
pub struct AutorunTransformer {
    pub autorun_imports: ImportsExtractor,
    pub use_state_imports: ImportsExtractor,
    pub use_reducer_imports: ImportsExtractor,
    pub use_ref_imports: ImportsExtractor,
}

impl AutorunTransformer {
    pub open spec fn env(&self, scope: &Scope) -> Env {
        Env {
            autorun: self.autorun_imports.specifiers@,
            hooks: HookSets {
                state: self.use_state_imports.specifiers@,
                reducer: self.use_reducer_imports.specifiers@,
                refs: self.use_ref_imports.specifiers@,
            },
            anchor: scope.ctxt,
            ignored: scope.ignored@,
        }
    }

    /// Whether a call with arguments `args` is an autorun call.
    pub fn is_autorun_call(&self, args: &Vec<Expr>) -> (r: bool)
        ensures
            r == is_autorun_call(exprs_model(args@), self.autorun_imports.specifiers@),
    {
        if args.len() < 2 {
            return false;
        }
        let callback = match &args[0] {
            Expr::Func(_, _) => true,
            Expr::Arrow(_, _) => true,
            _ => false,
        };
        if !callback {
            return false;
        }
        match &args[1] {
            Expr::Ident(autorun) => self.autorun_imports.contains(autorun),
            _ => false,
        }
    }

    pub fn visit_mut_expr(&self, e: &mut Expr, scope: &Scope)
        ensures
            expr_model(*final(e)) == rw_expr(expr_model(*old(e)), self.env(scope)),
        decreases expr_model(*old(e)),
    {
        let ghost env = self.env(scope);
        match e {
            Expr::Member(o, p) => {
                self.visit_mut_expr(&mut **o, scope);
                self.visit_mut_prop(p, scope);
            },
            Expr::Call(c, args) => {
                let ghost old_args = exprs_model(args@);
                let autorun = self.is_autorun_call(args);
                let thunk = if autorun {
                    let deps = extract_deps(&args[0], scope.ctxt, &scope.ignored);
                    assert(deps@.map_values(|p: String| p@) =~= deps_of(old_args[0], env.anchor, env.ignored));
                    Some(thunk(deps))
                } else {
                    None
                };
                self.visit_mut_expr(&mut **c, scope);
                self.visit_mut_exprs(args, scope);
                match thunk {
                    Some(t) => {
                        assert(args@.len() == exprs_model(args@).len());
                        args.set(1, t);
                        assert(exprs_model(args@) =~= rw_exprs(old_args, env).update(1, thunk_of(deps_of(old_args[0], env.anchor, env.ignored))));
                    },
                    None => {},
                }
            },
            Expr::Func(_, b) => self.visit_mut_block(b, scope),
            Expr::Arrow(_, body) => self.visit_mut_expr(&mut **body, scope),
            Expr::Array(es) => self.visit_mut_exprs(es, scope),
            Expr::Other(es) => self.visit_mut_exprs(es, scope),
            _ => {},
        }
    }

    pub fn visit_mut_prop(&self, p: &mut MemberProp, scope: &Scope)
        ensures
            prop_model(*final(p)) == rw_prop(prop_model(*old(p)), self.env(scope)),
        decreases prop_model(*old(p)),
    {
        match p {
            MemberProp::Computed(ce) => self.visit_mut_expr(&mut **ce, scope),
            _ => {},
        }
    }

    pub fn visit_mut_exprs(&self, es: &mut Vec<Expr>, scope: &Scope)
        ensures
            exprs_model(final(es)@) == rw_exprs(exprs_model(old(es)@), self.env(scope)),
        decreases exprs_model(old(es)@),
    {
        let ghost m = exprs_model(es@);
        let mut i: usize = 0;
        while i < es.len()
            invariant
                0 <= i <= es@.len(),
                m == exprs_model(old(es)@),
                es@.len() == old(es)@.len(),
                forall|j: int| 0 <= j < i ==> expr_model(#[trigger] es@[j]) == rw_expr(m[j], self.env(scope)),
                forall|j: int| i <= j < es@.len() ==> #[trigger] es@[j] == old(es)@[j],
            decreases es@.len() - i,
        {
            assert(m[i as int] == expr_model(es@[i as int]));
            self.visit_mut_expr(&mut es[i], scope);
            i = i + 1;
        }
        assert(exprs_model(es@) =~= rw_exprs(m, self.env(scope)));
    }

    pub fn visit_mut_block(&self, b: &mut Block, scope: &Scope)
        ensures
            block_model(*final(b)) == rw_block(block_model(*old(b)), self.env(scope)),
        decreases block_model(*old(b)),
    {
        let mut hooks = IgnoredHooksExtractor::new(
            &self.use_state_imports,
            &self.use_reducer_imports,
            &self.use_ref_imports,
        );
        hooks.visit_block(b);
        let inner = Scope { ctxt: b.ctxt, ignored: hooks.idents };
        assert(inner.ignored@ =~= ignored_stmts(block_model(*b).stmts, self.env(scope).hooks));
        self.visit_mut_stmts(&mut b.stmts, &inner);
    }

    pub fn visit_mut_stmt(&self, s: &mut Stmt, scope: &Scope)
        ensures
            stmt_model(*final(s)) == rw_stmt(stmt_model(*old(s)), self.env(scope)),
        decreases stmt_model(*old(s)),
    {
        match s {
            Stmt::Expr(e) => self.visit_mut_expr(e, scope),
            Stmt::Block(b) => self.visit_mut_block(b, scope),
            Stmt::Var(ds) => self.visit_mut_decls(ds, scope),
            Stmt::Other(es, ss) => {
                self.visit_mut_exprs(es, scope);
                self.visit_mut_stmts(ss, scope);
            },
        }
    }

    pub fn visit_mut_stmts(&self, ss: &mut Vec<Stmt>, scope: &Scope)
        ensures
            stmts_model(final(ss)@) == rw_stmts(stmts_model(old(ss)@), self.env(scope)),
        decreases stmts_model(old(ss)@),
    {
        let ghost m = stmts_model(ss@);
        let mut i: usize = 0;
        while i < ss.len()
            invariant
                0 <= i <= ss@.len(),
                m == stmts_model(old(ss)@),
                ss@.len() == old(ss)@.len(),
                forall|j: int| 0 <= j < i ==> stmt_model(#[trigger] ss@[j]) == rw_stmt(m[j], self.env(scope)),
                forall|j: int| i <= j < ss@.len() ==> #[trigger] ss@[j] == old(ss)@[j],
            decreases ss@.len() - i,
        {
            assert(m[i as int] == stmt_model(ss@[i as int]));
            self.visit_mut_stmt(&mut ss[i], scope);
            i = i + 1;
        }
        assert(stmts_model(ss@) =~= rw_stmts(m, self.env(scope)));
    }

    pub fn visit_mut_decl(&self, d: &mut Declarator, scope: &Scope)
        ensures
            decl_model(*final(d)) == rw_decl(decl_model(*old(d)), self.env(scope)),
        decreases decl_model(*old(d)),
    {
        match &mut d.init {
            Some(e) => self.visit_mut_expr(e, scope),
            None => {},
        }
    }

    pub fn visit_mut_decls(&self, ds: &mut Vec<Declarator>, scope: &Scope)
        ensures
            decls_model(final(ds)@) == rw_decls(decls_model(old(ds)@), self.env(scope)),
        decreases decls_model(old(ds)@),
    {
        let ghost m = decls_model(ds@);
        let mut i: usize = 0;
        while i < ds.len()
            invariant
                0 <= i <= ds@.len(),
                m == decls_model(old(ds)@),
                ds@.len() == old(ds)@.len(),
                forall|j: int| 0 <= j < i ==> decl_model(#[trigger] ds@[j]) == rw_decl(m[j], self.env(scope)),
                forall|j: int| i <= j < ds@.len() ==> #[trigger] ds@[j] == old(ds)@[j],
            decreases ds@.len() - i,
        {
            assert(m[i as int] == decl_model(ds@[i as int]));
            self.visit_mut_decl(&mut ds[i], scope);
            i = i + 1;
        }
        assert(decls_model(ds@) =~= rw_decls(m, self.env(scope)));
    }
}

impl AutorunTransformer {
    pub open spec fn names(&self) -> ImportNames {
        ImportNames {
            autorun: (self.autorun_imports.export_name@, self.autorun_imports.module_name@),
            state: (self.use_state_imports.export_name@, self.use_state_imports.module_name@),
            reducer: (self.use_reducer_imports.export_name@, self.use_reducer_imports.module_name@),
            refs: (self.use_ref_imports.export_name@, self.use_ref_imports.module_name@),
        }
    }

    pub open spec fn trackers(&self) -> Trackers {
        Trackers {
            autorun: self.autorun_imports.specifiers@,
            hooks: HookSets {
                state: self.use_state_imports.specifiers@,
                reducer: self.use_reducer_imports.specifiers@,
                refs: self.use_ref_imports.specifiers@,
            },
        }
    }

    /// A transformer that tracks `autorun` of "react-autorun" and the
    /// `useState`, `useReducer` and `useRef` hooks of "react".
    pub fn new() -> (r: Self)
        ensures
            r.names() == default_names(),
            r.trackers() == no_trackers(),
    {
        Self::with_autorun_symbol("autorun")
    }

    /// Like `new`, with `symbol` as the name of the `autorun` export.
    pub fn with_autorun_symbol(symbol: &str) -> (r: Self)
        ensures
            r.names() == (ImportNames { autorun: (symbol@, "react-autorun"@), ..default_names() }),
            r.trackers() == no_trackers(),
    {
        AutorunTransformer {
            autorun_imports: ImportsExtractor::new(symbol, "react-autorun"),
            use_state_imports: ImportsExtractor::new("useState", "react"),
            use_reducer_imports: ImportsExtractor::new("useReducer", "react"),
            use_ref_imports: ImportsExtractor::new("useRef", "react"),
        }
    }

    pub fn visit_mut_import_decl(&mut self, n: &ImportDecl)
        ensures
            final(self).names() == old(self).names(),
            final(self).trackers() == observe(old(self).trackers(), import_model(*n), old(self).names()),
    {
        self.autorun_imports.extract(n);
        self.use_state_imports.extract(n);
        self.use_reducer_imports.extract(n);
        self.use_ref_imports.extract(n);
    }

    /// Rewrites every autorun call of `m` in place.
    pub fn visit_mut_module(&mut self, m: &mut Module)
        ensures
            final(self).names() == old(self).names(),
            final(m)@ == transform_items(old(m)@, old(self).names(), old(self).trackers()),
    {
        let ghost m0 = m@;
        let ghost n = self.names();
        let ghost t0 = self.trackers();
        let mut i: usize = 0;
        while i < m.body.len()
            invariant
                0 <= i <= m.body@.len(),
                m0 == old(m)@,
                m.body@.len() == old(m).body@.len(),
                self.names() == n,
                self.trackers() == trackers_after(m0, i as int, n, t0),
                forall|j: int|
                    0 <= j < i ==> item_model(#[trigger] m.body@[j]) == rw_item(
                        m0[j],
                        trackers_after(m0, j, n, t0),
                    ),
                forall|j: int| i <= j < m.body@.len() ==> #[trigger] m.body@[j] == old(m).body@[j],
            decreases m.body@.len() - i,
        {
            assert(m0[i as int] == item_model(m.body@[i as int]));
            match &mut m.body[i] {
                ModuleItem::Import(d) => {
                    self.visit_mut_import_decl(&*d);
                },
                ModuleItem::Stmt(s) => {
                    let scope = Scope { ctxt: 0, ignored: IdentKeySet::new() };
                    assert(self.env(&scope) == top_env(self.trackers()));
                    self.visit_mut_stmt(s, &scope);
                },
            }
            i = i + 1;
        }
        assert(m@ =~= transform_items(m0, n, t0));
    }
}

/// Rewrites every autorun call of `program`, tracking the default names.
pub fn process_transform(program: Module) -> (r: Module)
    ensures
        r@ == transform_items(program@, default_names(), no_trackers()),
{
    let mut program = program;
    let mut t = AutorunTransformer::new();
    t.visit_mut_module(&mut program);
    program
}

/// `() => [p0, p1, ...]`, one reference per path.
pub fn thunk(deps: Vec<String>) -> (r: Expr)
    ensures
        expr_model(r) == thunk_of(deps@.map_values(|p: String| p@)),
{
    let ghost ps = deps@.map_values(|p: String| p@);
    let mut elems: Vec<Expr> = Vec::new();
    let mut i: usize = 0;
    while i < deps.len()
        invariant
            ps == deps@.map_values(|p: String| p@),
            0 <= i <= deps@.len(),
            elems@.len() == i,
            forall|j: int| 0 <= j < i ==> #[trigger] expr_model(elems@[j]) == ExprM::Ident(IdentM { sym: ps[j], ctxt: 0 }),
        decreases deps@.len() - i,
    {
        let sym = deps[i].clone();
        elems.push(Expr::Ident(Ident { sym, ctxt: 0 }));
        i = i + 1;
    }
    let ghost want = Seq::new(ps.len(), |i: int| ExprM::Ident(IdentM { sym: ps[i], ctxt: 0 }));
    assert forall|j: int| 0 <= j < ps.len() implies exprs_model(elems@)[j] == want[j] by {
        assert(exprs_model(elems@)[j] == expr_model(elems@[j]));
    }
    assert(exprs_model(elems@) =~= want);
    let params: Vec<Pat> = Vec::new();
    assert(pats_model(params@) =~= Seq::<PatM>::empty());
    let body = Expr::Array(elems);
    assert(expr_model(body) == ExprM::Array(want));
    Expr::Arrow(params, Box::new(body))
}

} // verus!
