use crate::ast::{BlockM, DeclM, ExprM, IdentM, ItemM, PatM, PropM, StmtM};
use crate::deps::{
    add_all, chain_path, chain_root, deps_of, emit_decl, emit_decls, emit_expr, emit_exprs, emit_ident,
    emit_member, emit_pat, emit_pats, emit_stmt, emit_stmts, is_dependency, seg_of,
};
use crate::rewrite::{
    is_autorun_call, is_callback, rw_block, rw_decl, rw_decls, rw_expr, rw_exprs, rw_prop, rw_stmt,
    rw_stmts, thunk_of, top_env, trackers_after, transform_items, Env, ImportNames, Trackers,
};
use crate::hooks::{ignored_key, key_set, HookSets};
use vstd::prelude::*;

verus! {

/// Whether an autorun call (for the bindings `autorun`) occurs in `e`.
pub open spec fn calls_autorun_expr(e: ExprM, autorun: Set<Seq<char>>) -> bool
    decreases e,
{
    match e {
        ExprM::Member(o, p) => calls_autorun_expr(*o, autorun) || calls_autorun_prop(p, autorun),
        ExprM::Call(c, args) => is_autorun_call(args, autorun) || calls_autorun_expr(*c, autorun)
            || calls_autorun_exprs(args, autorun),
        ExprM::Func(_, b) => calls_autorun_stmts(b.stmts, autorun),
        ExprM::Arrow(_, body) => calls_autorun_expr(*body, autorun),
        ExprM::Array(es) => calls_autorun_exprs(es, autorun),
        ExprM::Other(es) => calls_autorun_exprs(es, autorun),
        _ => false,
    }
}

pub open spec fn calls_autorun_prop(p: PropM, autorun: Set<Seq<char>>) -> bool
    decreases p,
{
    match p {
        PropM::Computed(e) => calls_autorun_expr(*e, autorun),
        _ => false,
    }
}

pub open spec fn calls_autorun_exprs(s: Seq<ExprM>, autorun: Set<Seq<char>>) -> bool
    decreases s,
{
    exists|i: int| 0 <= i < s.len() && calls_autorun_expr(#[trigger] s[i], autorun)
}

pub open spec fn calls_autorun_stmt(s: StmtM, autorun: Set<Seq<char>>) -> bool
    decreases s,
{
    match s {
        StmtM::Expr(e) => calls_autorun_expr(e, autorun),
        StmtM::Block(b) => calls_autorun_stmts(b.stmts, autorun),
        StmtM::Var(ds) => calls_autorun_decls(ds, autorun),
        StmtM::Other(es, ss) => calls_autorun_exprs(es, autorun) || calls_autorun_stmts(ss, autorun),
    }
}

pub open spec fn calls_autorun_stmts(s: Seq<StmtM>, autorun: Set<Seq<char>>) -> bool
    decreases s,
{
    exists|i: int| 0 <= i < s.len() && calls_autorun_stmt(#[trigger] s[i], autorun)
}

pub open spec fn calls_autorun_decl(d: DeclM, autorun: Set<Seq<char>>) -> bool
    decreases d,
{
    match d.init {
        Some(e) => calls_autorun_expr(e, autorun),
        None => false,
    }
}

pub open spec fn calls_autorun_decls(s: Seq<DeclM>, autorun: Set<Seq<char>>) -> bool
    decreases s,
{
    exists|i: int| 0 <= i < s.len() && calls_autorun_decl(#[trigger] s[i], autorun)
}

/// Whether some top-level statement of a module holds an autorun call for the
/// bindings imported before it.
pub open spec fn module_calls_autorun(items: Seq<ItemM>, n: ImportNames, t0: Trackers) -> bool {
    exists|i: int|
        0 <= i < items.len() && (#[trigger] items[i] matches ItemM::Stmt(s) && calls_autorun_stmt(
            s,
            trackers_after(items, i, n, t0).autorun,
        ))
}

proof fn lemma_unchanged_expr(e: ExprM, env: Env)
    requires
        !calls_autorun_expr(e, env.autorun),
    ensures
        rw_expr(e, env) == e,
    decreases e,
{
    match e {
        ExprM::Member(o, p) => {
            lemma_unchanged_expr(*o, env);
            lemma_unchanged_prop(p, env);
        },
        ExprM::Call(c, args) => {
            lemma_unchanged_expr(*c, env);
            lemma_unchanged_exprs(args, env);
        },
        ExprM::Func(_, b) => lemma_unchanged_block(b, env),
        ExprM::Arrow(_, body) => lemma_unchanged_expr(*body, env),
        ExprM::Array(es) => lemma_unchanged_exprs(es, env),
        ExprM::Other(es) => lemma_unchanged_exprs(es, env),
        _ => {},
    }
}

proof fn lemma_unchanged_prop(p: PropM, env: Env)
    requires
        !calls_autorun_prop(p, env.autorun),
    ensures
        rw_prop(p, env) == p,
    decreases p,
{
    match p {
        PropM::Computed(e) => lemma_unchanged_expr(*e, env),
        _ => {},
    }
}

proof fn lemma_unchanged_exprs(s: Seq<ExprM>, env: Env)
    requires
        !calls_autorun_exprs(s, env.autorun),
    ensures
        rw_exprs(s, env) == s,
    decreases s,
{
    assert forall|i: int| 0 <= i < s.len() implies rw_exprs(s, env)[i] == s[i] by {
        assert(!calls_autorun_expr(s[i], env.autorun));
        lemma_unchanged_expr(s[i], env);
    }
    assert(rw_exprs(s, env) =~= s);
}

proof fn lemma_unchanged_block(b: BlockM, env: Env)
    requires
        !calls_autorun_stmts(b.stmts, env.autorun),
    ensures
        rw_block(b, env) == b,
    decreases b,
{
    lemma_unchanged_stmts(b.stmts, crate::rewrite::block_env(b, env));
}

proof fn lemma_unchanged_stmt(s: StmtM, env: Env)
    requires
        !calls_autorun_stmt(s, env.autorun),
    ensures
        rw_stmt(s, env) == s,
    decreases s,
{
    match s {
        StmtM::Expr(e) => lemma_unchanged_expr(e, env),
        StmtM::Block(b) => lemma_unchanged_block(b, env),
        StmtM::Var(ds) => lemma_unchanged_decls(ds, env),
        StmtM::Other(es, ss) => {
            lemma_unchanged_exprs(es, env);
            lemma_unchanged_stmts(ss, env);
        },
    }
}

proof fn lemma_unchanged_stmts(s: Seq<StmtM>, env: Env)
    requires
        !calls_autorun_stmts(s, env.autorun),
    ensures
        rw_stmts(s, env) == s,
    decreases s,
{
    assert forall|i: int| 0 <= i < s.len() implies rw_stmts(s, env)[i] == s[i] by {
        assert(!calls_autorun_stmt(s[i], env.autorun));
        lemma_unchanged_stmt(s[i], env);
    }
    assert(rw_stmts(s, env) =~= s);
}

proof fn lemma_unchanged_decl(d: DeclM, env: Env)
    requires
        !calls_autorun_decl(d, env.autorun),
    ensures
        rw_decl(d, env) == d,
    decreases d,
{
    match d.init {
        Some(e) => lemma_unchanged_expr(e, env),
        None => {},
    }
}

proof fn lemma_unchanged_decls(s: Seq<DeclM>, env: Env)
    requires
        !calls_autorun_decls(s, env.autorun),
    ensures
        rw_decls(s, env) == s,
    decreases s,
{
    assert forall|i: int| 0 <= i < s.len() implies rw_decls(s, env)[i] == s[i] by {
        assert(!calls_autorun_decl(s[i], env.autorun));
        lemma_unchanged_decl(s[i], env);
    }
    assert(rw_decls(s, env) =~= s);
}

/// A module in which no autorun call occurs comes out of the pass unchanged.
pub proof fn law_no_autorun_call_no_change(items: Seq<ItemM>, n: ImportNames, t0: Trackers)
    requires
        !module_calls_autorun(items, n, t0),
    ensures
        transform_items(items, n, t0) == items,
{
    assert forall|i: int| 0 <= i < items.len() implies transform_items(items, n, t0)[i] == items[i] by {
        let t = trackers_after(items, i, n, t0);
        match items[i] {
            ItemM::Stmt(s) => {
                assert(!calls_autorun_stmt(s, t.autorun));
                lemma_unchanged_stmt(s, top_env(t));
            },
            ItemM::Import(_) => {},
        }
    }
    assert(transform_items(items, n, t0) =~= items);
}

proof fn lemma_thunk_clean(ps: Seq<Seq<char>>, autorun: Set<Seq<char>>)
    ensures
        !calls_autorun_expr(thunk_of(ps), autorun),
{
    let t = thunk_of(ps);
    if let ExprM::Arrow(_, body) = t {
        if let ExprM::Array(es) = *body {
            assert forall|i: int| 0 <= i < es.len() implies !calls_autorun_expr(#[trigger] es[i], autorun) by {
                assert(es[i] is Ident);
            }
            assert(!calls_autorun_exprs(es, autorun));
            assert(!calls_autorun_expr(*body, autorun));
        }
    }
}

proof fn lemma_clean_expr(e: ExprM, env: Env)
    ensures
        !calls_autorun_expr(rw_expr(e, env), env.autorun),
    decreases e,
{
    match e {
        ExprM::Member(o, p) => {
            lemma_clean_expr(*o, env);
            lemma_clean_prop(p, env);
            assert(!calls_autorun_expr(rw_expr(e, env), env.autorun));
        },
        ExprM::Call(c, args) => {
            lemma_clean_expr(*c, env);
            lemma_clean_exprs(args, env);
            let args2 = rw_exprs(args, env);
            if is_autorun_call(args, env.autorun) {
                let t = thunk_of(deps_of(args[0], env.anchor, env.ignored));
                let a3 = args2.update(1, t);
                lemma_thunk_clean(deps_of(args[0], env.anchor, env.ignored), env.autorun);
                assert forall|j: int| 0 <= j < a3.len() implies !calls_autorun_expr(#[trigger] a3[j], env.autorun) by {
                    if j != 1 {
                        assert(a3[j] == args2[j]);
                    }
                }
                assert(!is_autorun_call(a3, env.autorun));
                assert(!calls_autorun_exprs(a3, env.autorun));
                assert(rw_expr(e, env) == ExprM::Call(Box::new(rw_expr(*c, env)), a3));
                assert(!calls_autorun_expr(rw_expr(e, env), env.autorun));
            } else {
                if args.len() >= 2 {
                    assert(args2[0] == rw_expr(args[0], env));
                    assert(args2[1] == rw_expr(args[1], env));
                    assert(is_callback(args2[0]) == is_callback(args[0]));
                    if let ExprM::Ident(_) = args2[1] {
                        assert(args2[1] == args[1]);
                    }
                }
                assert(!is_autorun_call(args2, env.autorun));
                assert(!calls_autorun_expr(rw_expr(e, env), env.autorun));
            }
        },
        ExprM::Func(_, b) => lemma_clean_block(b, env),
        ExprM::Arrow(_, body) => lemma_clean_expr(*body, env),
        ExprM::Array(es) => lemma_clean_exprs(es, env),
        ExprM::Other(es) => lemma_clean_exprs(es, env),
        _ => {},
    }
}

proof fn lemma_clean_prop(p: PropM, env: Env)
    ensures
        !calls_autorun_prop(rw_prop(p, env), env.autorun),
    decreases p,
{
    match p {
        PropM::Computed(e) => lemma_clean_expr(*e, env),
        _ => {},
    }
}

proof fn lemma_clean_exprs(s: Seq<ExprM>, env: Env)
    ensures
        !calls_autorun_exprs(rw_exprs(s, env), env.autorun),
    decreases s,
{
    assert forall|i: int| 0 <= i < s.len() implies !calls_autorun_expr(#[trigger] rw_exprs(s, env)[i], env.autorun) by {
        lemma_clean_expr(s[i], env);
    }
}

proof fn lemma_clean_block(b: BlockM, env: Env)
    ensures
        !calls_autorun_stmts(rw_block(b, env).stmts, env.autorun),
    decreases b,
{
    lemma_clean_stmts(b.stmts, crate::rewrite::block_env(b, env));
}

proof fn lemma_clean_stmt(s: StmtM, env: Env)
    ensures
        !calls_autorun_stmt(rw_stmt(s, env), env.autorun),
    decreases s,
{
    match s {
        StmtM::Expr(e) => lemma_clean_expr(e, env),
        StmtM::Block(b) => lemma_clean_block(b, env),
        StmtM::Var(ds) => lemma_clean_decls(ds, env),
        StmtM::Other(es, ss) => {
            lemma_clean_exprs(es, env);
            lemma_clean_stmts(ss, env);
        },
    }
}

proof fn lemma_clean_stmts(s: Seq<StmtM>, env: Env)
    ensures
        !calls_autorun_stmts(rw_stmts(s, env), env.autorun),
    decreases s,
{
    assert forall|i: int| 0 <= i < s.len() implies !calls_autorun_stmt(#[trigger] rw_stmts(s, env)[i], env.autorun) by {
        lemma_clean_stmt(s[i], env);
    }
}

proof fn lemma_clean_decl(d: DeclM, env: Env)
    ensures
        !calls_autorun_decl(rw_decl(d, env), env.autorun),
    decreases d,
{
    match d.init {
        Some(e) => lemma_clean_expr(e, env),
        None => {},
    }
}

proof fn lemma_clean_decls(s: Seq<DeclM>, env: Env)
    ensures
        !calls_autorun_decls(rw_decls(s, env), env.autorun),
    decreases s,
{
    assert forall|i: int| 0 <= i < s.len() implies !calls_autorun_decl(#[trigger] rw_decls(s, env)[i], env.autorun) by {
        lemma_clean_decl(s[i], env);
    }
}

proof fn lemma_same_trackers(items: Seq<ItemM>, n: ImportNames, t0: Trackers, k: int)
    requires
        0 <= k <= items.len(),
    ensures
        trackers_after(transform_items(items, n, t0), k, n, t0) == trackers_after(items, k, n, t0),
    decreases k,
{
    if k > 0 {
        lemma_same_trackers(items, n, t0, k - 1);
    }
}

/// The pass changes nothing in its own output: every call it rewrote no
/// longer has an identifier as second argument, and no other call became an
/// autorun call.
pub proof fn law_pass_is_idempotent(items: Seq<ItemM>, n: ImportNames, t0: Trackers)
    ensures
        transform_items(transform_items(items, n, t0), n, t0) == transform_items(items, n, t0),
{
    let once = transform_items(items, n, t0);
    assert forall|i: int| 0 <= i < items.len() implies transform_items(once, n, t0)[i] == once[i] by {
        lemma_same_trackers(items, n, t0, i);
        let t = trackers_after(items, i, n, t0);
        match items[i] {
            ItemM::Stmt(s) => {
                lemma_clean_stmt(s, top_env(t));
                lemma_unchanged_stmt(rw_stmt(s, top_env(t)), top_env(t));
            },
            ItemM::Import(_) => {},
        }
    }
    assert(transform_items(once, n, t0) =~= once);
}

/// At an autorun call, the second argument is replaced by the thunk of the
/// callback's dependency list, which is no identifier.
pub proof fn law_autorun_call_rewritten(c: ExprM, args: Seq<ExprM>, env: Env)
    requires
        is_autorun_call(args, env.autorun),
    ensures
        rw_expr(ExprM::Call(Box::new(c), args), env) == ExprM::Call(
            Box::new(rw_expr(c, env)),
            rw_exprs(args, env).update(1, thunk_of(deps_of(args[0], env.anchor, env.ignored))),
        ),
        !(rw_exprs(args, env).update(1, thunk_of(deps_of(args[0], env.anchor, env.ignored)))[1] is Ident),
{
}

/// Whether `p` starts with the name of an identifier declared in the anchor
/// block and not excluded from tracking.
pub open spec fn rooted_in_anchor(p: Seq<char>, anchor: u32, ignored: Set<Seq<char>>) -> bool {
    exists|i: IdentM| #[trigger] is_dependency(i, anchor, ignored) && i.sym.is_prefix_of(p)
}

pub open spec fn all_rooted(ps: Seq<Seq<char>>, anchor: u32, ignored: Set<Seq<char>>) -> bool {
    forall|k: int| 0 <= k < ps.len() ==> rooted_in_anchor(#[trigger] ps[k], anchor, ignored)
}

proof fn lemma_rooted_concat(a: Seq<Seq<char>>, b: Seq<Seq<char>>, anchor: u32, ignored: Set<Seq<char>>)
    requires
        all_rooted(a, anchor, ignored),
        all_rooted(b, anchor, ignored),
    ensures
        all_rooted(a + b, anchor, ignored),
{
    assert forall|k: int| 0 <= k < (a + b).len() implies rooted_in_anchor(#[trigger] (a + b)[k], anchor, ignored) by {
        if k < a.len() {
            assert((a + b)[k] == a[k]);
        } else {
            assert((a + b)[k] == b[k - a.len()]);
        }
    }
}

proof fn lemma_root_is_prefix(e: ExprM, r: IdentM)
    requires
        chain_root(e) == Some(r),
    ensures
        r.sym.is_prefix_of(chain_path(e)),
    decreases e,
{
    match e {
        ExprM::Member(o, p) => {
            lemma_root_is_prefix(*o, r);
            assert(chain_path(e).subrange(0, r.sym.len() as int) =~= chain_path(*o).subrange(0, r.sym.len() as int));
        },
        _ => {
            assert(chain_path(e).subrange(0, r.sym.len() as int) =~= chain_path(e));
        },
    }
}

proof fn lemma_rooted_member(o: ExprM, p: PropM, callee: bool, anchor: u32, ignored: Set<Seq<char>>)
    ensures
        all_rooted(emit_member(o, p, callee, anchor, ignored), anchor, ignored),
{
    if let Some(r) = chain_root(o) {
        if is_dependency(r, anchor, ignored) {
            lemma_root_is_prefix(o, r);
            let full = chain_path(o) + seg_of(p);
            assert(full.subrange(0, r.sym.len() as int) =~= chain_path(o).subrange(0, r.sym.len() as int));
            assert(rooted_in_anchor(chain_path(o), anchor, ignored));
            assert(rooted_in_anchor(full, anchor, ignored));
            let s = emit_member(o, p, callee, anchor, ignored);
            assert forall|k: int| 0 <= k < s.len() implies rooted_in_anchor(#[trigger] s[k], anchor, ignored) by {
                assert(s[k] == chain_path(o) || s[k] == full);
            }
        }
    }
}

proof fn lemma_rooted_ident(i: IdentM, anchor: u32, ignored: Set<Seq<char>>)
    ensures
        all_rooted(emit_ident(i, anchor, ignored), anchor, ignored),
{
    if is_dependency(i, anchor, ignored) {
        assert(i.sym.subrange(0, i.sym.len() as int) =~= i.sym);
        assert(rooted_in_anchor(i.sym, anchor, ignored));
    }
}

proof fn lemma_rooted_pat(p: PatM, anchor: u32, ignored: Set<Seq<char>>)
    ensures
        all_rooted(emit_pat(p, anchor, ignored), anchor, ignored),
    decreases p,
{
    match p {
        PatM::Ident(i) => lemma_rooted_ident(i, anchor, ignored),
        PatM::Array(ps) => lemma_rooted_pats(ps, anchor, ignored),
        PatM::Hole => {},
        PatM::Other(ps) => lemma_rooted_pats(ps, anchor, ignored),
    }
}

proof fn lemma_rooted_pats(s: Seq<PatM>, anchor: u32, ignored: Set<Seq<char>>)
    ensures
        all_rooted(emit_pats(s, anchor, ignored), anchor, ignored),
    decreases s,
{
    if s.len() > 0 {
        lemma_rooted_pats(s.drop_last(), anchor, ignored);
        lemma_rooted_pat(s.last(), anchor, ignored);
        lemma_rooted_concat(emit_pats(s.drop_last(), anchor, ignored), emit_pat(s.last(), anchor, ignored), anchor, ignored);
    }
}

proof fn lemma_rooted_expr(e: ExprM, anchor: u32, ignored: Set<Seq<char>>)
    ensures
        all_rooted(emit_expr(e, anchor, ignored), anchor, ignored),
    decreases e,
{
    match e {
        ExprM::Ident(i) => lemma_rooted_ident(i, anchor, ignored),
        ExprM::Member(o, p) => lemma_rooted_member(*o, p, false, anchor, ignored),
        ExprM::Call(c, args) => {
            let head = match *c {
                ExprM::Member(o, p) => emit_member(*o, p, true, anchor, ignored),
                _ => emit_expr(*c, anchor, ignored),
            };
            match *c {
                ExprM::Member(o, p) => lemma_rooted_member(*o, p, true, anchor, ignored),
                _ => lemma_rooted_expr(*c, anchor, ignored),
            }
            lemma_rooted_exprs(args, anchor, ignored);
            lemma_rooted_concat(head, emit_exprs(args, anchor, ignored), anchor, ignored);
        },
        ExprM::Func(ps, b) => {
            lemma_rooted_pats(ps, anchor, ignored);
            lemma_rooted_stmts(b.stmts, anchor, ignored);
            lemma_rooted_concat(emit_pats(ps, anchor, ignored), emit_stmts(b.stmts, anchor, ignored), anchor, ignored);
        },
        ExprM::Arrow(ps, body) => {
            lemma_rooted_pats(ps, anchor, ignored);
            lemma_rooted_expr(*body, anchor, ignored);
            lemma_rooted_concat(emit_pats(ps, anchor, ignored), emit_expr(*body, anchor, ignored), anchor, ignored);
        },
        ExprM::Array(es) => lemma_rooted_exprs(es, anchor, ignored),
        ExprM::Other(es) => lemma_rooted_exprs(es, anchor, ignored),
        _ => {},
    }
}

proof fn lemma_rooted_exprs(s: Seq<ExprM>, anchor: u32, ignored: Set<Seq<char>>)
    ensures
        all_rooted(emit_exprs(s, anchor, ignored), anchor, ignored),
    decreases s,
{
    if s.len() > 0 {
        lemma_rooted_exprs(s.drop_last(), anchor, ignored);
        lemma_rooted_expr(s.last(), anchor, ignored);
        lemma_rooted_concat(emit_exprs(s.drop_last(), anchor, ignored), emit_expr(s.last(), anchor, ignored), anchor, ignored);
    }
}

proof fn lemma_rooted_stmt(s: StmtM, anchor: u32, ignored: Set<Seq<char>>)
    ensures
        all_rooted(emit_stmt(s, anchor, ignored), anchor, ignored),
    decreases s,
{
    match s {
        StmtM::Expr(e) => lemma_rooted_expr(e, anchor, ignored),
        StmtM::Block(b) => lemma_rooted_stmts(b.stmts, anchor, ignored),
        StmtM::Var(ds) => lemma_rooted_decls(ds, anchor, ignored),
        StmtM::Other(es, ss) => {
            lemma_rooted_exprs(es, anchor, ignored);
            lemma_rooted_stmts(ss, anchor, ignored);
            lemma_rooted_concat(emit_exprs(es, anchor, ignored), emit_stmts(ss, anchor, ignored), anchor, ignored);
        },
    }
}

proof fn lemma_rooted_stmts(s: Seq<StmtM>, anchor: u32, ignored: Set<Seq<char>>)
    ensures
        all_rooted(emit_stmts(s, anchor, ignored), anchor, ignored),
    decreases s,
{
    if s.len() > 0 {
        lemma_rooted_stmts(s.drop_last(), anchor, ignored);
        lemma_rooted_stmt(s.last(), anchor, ignored);
        lemma_rooted_concat(emit_stmts(s.drop_last(), anchor, ignored), emit_stmt(s.last(), anchor, ignored), anchor, ignored);
    }
}

proof fn lemma_rooted_decl(d: DeclM, anchor: u32, ignored: Set<Seq<char>>)
    ensures
        all_rooted(emit_decl(d, anchor, ignored), anchor, ignored),
    decreases d,
{
    lemma_rooted_pat(d.name, anchor, ignored);
    let tail = match d.init {
        Some(e) => emit_expr(e, anchor, ignored),
        None => Seq::empty(),
    };
    match d.init {
        Some(e) => lemma_rooted_expr(e, anchor, ignored),
        None => {},
    }
    lemma_rooted_concat(emit_pat(d.name, anchor, ignored), tail, anchor, ignored);
}

proof fn lemma_rooted_decls(s: Seq<DeclM>, anchor: u32, ignored: Set<Seq<char>>)
    ensures
        all_rooted(emit_decls(s, anchor, ignored), anchor, ignored),
    decreases s,
{
    if s.len() > 0 {
        lemma_rooted_decls(s.drop_last(), anchor, ignored);
        lemma_rooted_decl(s.last(), anchor, ignored);
        lemma_rooted_concat(emit_decls(s.drop_last(), anchor, ignored), emit_decl(s.last(), anchor, ignored), anchor, ignored);
    }
}

proof fn lemma_rooted_add_all(items: Seq<Seq<char>>, ps: Seq<Seq<char>>, anchor: u32, ignored: Set<Seq<char>>)
    requires
        all_rooted(items, anchor, ignored),
        all_rooted(ps, anchor, ignored),
    ensures
        all_rooted(add_all(items, ps), anchor, ignored),
    decreases ps.len(),
{
    if ps.len() > 0 {
        assert(all_rooted(ps.drop_last(), anchor, ignored)) by {
            assert forall|k: int| 0 <= k < ps.drop_last().len() implies rooted_in_anchor(#[trigger] ps.drop_last()[k], anchor, ignored) by {
                assert(ps.drop_last()[k] == ps[k]);
            }
        }
        lemma_rooted_add_all(items, ps.drop_last(), anchor, ignored);
        assert(rooted_in_anchor(ps[ps.len() - 1], anchor, ignored));
    }
}

/// Every dependency path starts with the name of an identifier declared in the
/// anchor block and not excluded: reads of bindings from other blocks or from
/// the module scope never show up.
pub proof fn law_deps_rooted_in_anchor(callback: ExprM, anchor: u32, ignored: Set<Seq<char>>)
    ensures
        forall|k: int|
            0 <= k < deps_of(callback, anchor, ignored).len() ==> rooted_in_anchor(
                #[trigger] deps_of(callback, anchor, ignored)[k],
                anchor,
                ignored,
            ),
{
    lemma_rooted_expr(callback, anchor, ignored);
    lemma_rooted_add_all(Seq::empty(), emit_expr(callback, anchor, ignored), anchor, ignored);
}

proof fn lemma_add_all_members(items: Seq<Seq<char>>, ps: Seq<Seq<char>>)
    requires
        items.no_duplicates(),
    ensures
        add_all(items, ps).no_duplicates(),
        forall|x: Seq<char>| #[trigger] add_all(items, ps).contains(x) <==> items.contains(x) || ps.contains(x),
    decreases ps.len(),
{
    if ps.len() > 0 {
        let prev = add_all(items, ps.drop_last());
        lemma_add_all_members(items, ps.drop_last());
        assert forall|x: Seq<char>| ps.contains(x) <==> ps.drop_last().contains(x) || x == ps.last() by {
            if ps.contains(x) {
                let k = choose|k: int| 0 <= k < ps.len() && ps[k] == x;
                if k < ps.len() - 1 {
                    assert(ps.drop_last()[k] == x);
                }
            }
            if ps.drop_last().contains(x) {
                let k = choose|k: int| 0 <= k < ps.drop_last().len() && ps.drop_last()[k] == x;
                assert(ps[k] == x);
            }
            if x == ps.last() {
                assert(ps[ps.len() - 1] == x);
            }
        }
        if !prev.contains(ps.last()) {
            assert forall|x: Seq<char>| #[trigger] prev.push(ps.last()).contains(x) <==> prev.contains(x) || x == ps.last() by {
                if prev.push(ps.last()).contains(x) {
                    let k = choose|k: int| 0 <= k < prev.push(ps.last()).len() && prev.push(ps.last())[k] == x;
                    if k < prev.len() {
                        assert(prev[k] == x);
                    }
                }
                if prev.contains(x) {
                    let k = choose|k: int| 0 <= k < prev.len() && prev[k] == x;
                    assert(prev.push(ps.last())[k] == x);
                }
                if x == ps.last() {
                    assert(prev.push(ps.last())[prev.len() as int] == x);
                }
            }
        }
    }
}

/// A dependency list holds each path that the walk of the callback records,
/// once, and nothing else.
pub proof fn law_deps_are_the_recorded_paths_once(callback: ExprM, anchor: u32, ignored: Set<Seq<char>>)
    ensures
        deps_of(callback, anchor, ignored).no_duplicates(),
        forall|p: Seq<char>|
            #[trigger] deps_of(callback, anchor, ignored).contains(p) <==> emit_expr(
                callback,
                anchor,
                ignored,
            ).contains(p),
{
    lemma_add_all_members(Seq::empty(), emit_expr(callback, anchor, ignored));
}

/// A call that is not an autorun call keeps its arguments, which are only
/// rewritten inside; in particular a call whose second argument is no longer
/// an identifier, as the pass leaves it, is not rewritten again.
pub proof fn law_other_call_left_alone(c: ExprM, args: Seq<ExprM>, env: Env)
    requires
        !is_autorun_call(args, env.autorun),
    ensures
        rw_expr(ExprM::Call(Box::new(c), args), env) == ExprM::Call(
            Box::new(rw_expr(c, env)),
            rw_exprs(args, env),
        ),
        args.len() >= 2 && !(args[1] is Ident) ==> !is_autorun_call(args, env.autorun),
{
}

/// A state or reducer hook declared as `[value, setter] = hook(...)` excludes
/// the setter and nothing else, unless the hook is also bound as a ref hook.
pub proof fn law_state_hook_excludes_setter(d: DeclM, h: HookSets)
    requires
        d.init matches Some(ExprM::Call(c, _)) && *c matches ExprM::Ident(callee) && (
        h.state.contains(callee.sym) || h.reducer.contains(callee.sym)) && !h.refs.contains(
            callee.sym,
        ),
        d.name matches PatM::Array(els) && els.len() >= 2 && els[1] is Ident,
    ensures
        d.name matches PatM::Array(els) && els[1] matches PatM::Ident(setter) && key_set(
            ignored_key(d, h),
        ) == Set::<Seq<char>>::empty().insert(setter.sym),
{
}

} // verus!
