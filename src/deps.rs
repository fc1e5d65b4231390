use crate::ast::{
    block_model, decl_model, decls_model, expr_model, exprs_model, pat_model, pats_model,
    prop_model, stmt_model, stmts_model, DeclM, Declarator, Expr, ExprM, Ident, IdentM, MemberProp,
    Pat, PatM, PropM, Stmt, StmtM,
};
use crate::keys::IdentKeySet;
use crate::path_set::{insert_path, new_path_set, ordered_paths, paths_in_order};
use linked_hash_set::LinkedHashSet;
use vstd::prelude::*;

verus! {

broadcast use vstd::std_specs::vec::group_vec_axioms;

/// The text a property adds to a dependency path: `?.name` for a named
/// property, `?.[index]` for an identifier, number or string index (a string
/// keeps its quotes), and the bare `?.` or `?.[` where nothing more is known.
pub open spec fn seg_of(p: PropM) -> Seq<char> {
    match p {
        PropM::Named(n) => seq!['?', '.'] + n,
        PropM::Private(_) => seq!['?', '.'],
        PropM::Computed(e) => match *e {
            ExprM::Ident(i) => seq!['?', '.', '['] + i.sym + seq![']'],
            ExprM::Num(t) => seq!['?', '.', '['] + t + seq![']'],
            ExprM::Str(s) => seq!['?', '.', '[', '"'] + s + seq!['"', ']'],
            _ => seq!['?', '.', '['],
        },
    }
}

/// The identifier a member chain starts from, if it starts from one.
pub open spec fn chain_root(e: ExprM) -> Option<IdentM>
    decreases e,
{
    match e {
        ExprM::Ident(i) => Some(i),
        ExprM::Member(o, _) => chain_root(*o),
        _ => None,
    }
}

/// The path of a member chain: its root's name, then one segment per property.
pub open spec fn chain_path(e: ExprM) -> Seq<char>
    decreases e,
{
    match e {
        ExprM::Ident(i) => i.sym,
        ExprM::Member(o, p) => chain_path(*o) + seg_of(p),
        _ => Seq::empty(),
    }
}

/// Whether reads of `i` are dependencies: declared in the anchor block and not excluded.
pub open spec fn is_dependency(i: IdentM, anchor: u32, ignored: Set<Seq<char>>) -> bool {
    i.ctxt == anchor && !ignored.contains(i.sym)
}

/// The paths that the member access `o.p` records; for the callee of a call,
/// the receiver's path comes first.
pub open spec fn emit_member(
    o: ExprM,
    p: PropM,
    callee: bool,
    anchor: u32,
    ignored: Set<Seq<char>>,
) -> Seq<Seq<char>> {
    match chain_root(o) {
        Some(r) => if is_dependency(r, anchor, ignored) {
            (if callee {
                seq![chain_path(o)]
            } else {
                Seq::empty()
            }) + seq![chain_path(o) + seg_of(p)]
        } else {
            Seq::empty()
        },
        None => Seq::empty(),
    }
}

pub open spec fn emit_ident(i: IdentM, anchor: u32, ignored: Set<Seq<char>>) -> Seq<Seq<char>> {
    if is_dependency(i, anchor, ignored) {
        seq![i.sym]
    } else {
        Seq::empty()
    }
}

/// The paths recorded, in order and with repeats, while walking `e`.
pub open spec fn emit_expr(e: ExprM, anchor: u32, ignored: Set<Seq<char>>) -> Seq<Seq<char>>
    decreases e,
{
    match e {
        ExprM::Ident(i) => emit_ident(i, anchor, ignored),
        ExprM::Num(_) => Seq::empty(),
        ExprM::Str(_) => Seq::empty(),
        ExprM::Member(o, p) => emit_member(*o, p, false, anchor, ignored),
        ExprM::Call(c, args) => (match *c {
            ExprM::Member(o, p) => emit_member(*o, p, true, anchor, ignored),
            _ => emit_expr(*c, anchor, ignored),
        }) + emit_exprs(args, anchor, ignored),
        ExprM::Func(ps, b) => emit_pats(ps, anchor, ignored) + emit_stmts(b.stmts, anchor, ignored),
        ExprM::Arrow(ps, body) => emit_pats(ps, anchor, ignored) + emit_expr(*body, anchor, ignored),
        ExprM::Array(es) => emit_exprs(es, anchor, ignored),
        ExprM::Other(es) => emit_exprs(es, anchor, ignored),
    }
}

pub open spec fn emit_exprs(s: Seq<ExprM>, anchor: u32, ignored: Set<Seq<char>>) -> Seq<Seq<char>>
    decreases s,
{
    if s.len() == 0 {
        Seq::empty()
    } else {
        emit_exprs(s.drop_last(), anchor, ignored) + emit_expr(s.last(), anchor, ignored)
    }
}

pub open spec fn emit_pat(p: PatM, anchor: u32, ignored: Set<Seq<char>>) -> Seq<Seq<char>>
    decreases p,
{
    match p {
        PatM::Ident(i) => emit_ident(i, anchor, ignored),
        PatM::Array(ps) => emit_pats(ps, anchor, ignored),
        PatM::Hole => Seq::empty(),
        PatM::Other(ps) => emit_pats(ps, anchor, ignored),
    }
}

pub open spec fn emit_pats(s: Seq<PatM>, anchor: u32, ignored: Set<Seq<char>>) -> Seq<Seq<char>>
    decreases s,
{
    if s.len() == 0 {
        Seq::empty()
    } else {
        emit_pats(s.drop_last(), anchor, ignored) + emit_pat(s.last(), anchor, ignored)
    }
}

pub open spec fn emit_stmt(s: StmtM, anchor: u32, ignored: Set<Seq<char>>) -> Seq<Seq<char>>
    decreases s,
{
    match s {
        StmtM::Expr(e) => emit_expr(e, anchor, ignored),
        StmtM::Block(b) => emit_stmts(b.stmts, anchor, ignored),
        StmtM::Var(ds) => emit_decls(ds, anchor, ignored),
        StmtM::Other(es, ss) => emit_exprs(es, anchor, ignored) + emit_stmts(ss, anchor, ignored),
    }
}

pub open spec fn emit_stmts(s: Seq<StmtM>, anchor: u32, ignored: Set<Seq<char>>) -> Seq<Seq<char>>
    decreases s,
{
    if s.len() == 0 {
        Seq::empty()
    } else {
        emit_stmts(s.drop_last(), anchor, ignored) + emit_stmt(s.last(), anchor, ignored)
    }
}

pub open spec fn emit_decl(d: DeclM, anchor: u32, ignored: Set<Seq<char>>) -> Seq<Seq<char>>
    decreases d,
{
    emit_pat(d.name, anchor, ignored) + match d.init {
        Some(e) => emit_expr(e, anchor, ignored),
        None => Seq::empty(),
    }
}

pub open spec fn emit_decls(s: Seq<DeclM>, anchor: u32, ignored: Set<Seq<char>>) -> Seq<Seq<char>>
    decreases s,
{
    if s.len() == 0 {
        Seq::empty()
    } else {
        emit_decls(s.drop_last(), anchor, ignored) + emit_decl(s.last(), anchor, ignored)
    }
}

/// `items` with `p` at the back, unless it is already there.
pub open spec fn add_path(items: Seq<Seq<char>>, p: Seq<char>) -> Seq<Seq<char>> {
    if items.contains(p) {
        items
    } else {
        items.push(p)
    }
}

/// `items` with each of `ps` added in turn, repeats dropped.
pub open spec fn add_all(items: Seq<Seq<char>>, ps: Seq<Seq<char>>) -> Seq<Seq<char>>
    decreases ps.len(),
{
    if ps.len() == 0 {
        items
    } else {
        add_path(add_all(items, ps.drop_last()), ps.last())
    }
}

/// The dependency list of a callback: the paths its walk records, first
/// occurrence first.
pub open spec fn deps_of(callback: ExprM, anchor: u32, ignored: Set<Seq<char>>) -> Seq<Seq<char>> {
    add_all(Seq::empty(), emit_expr(callback, anchor, ignored))
}

pub proof fn lemma_add_all_concat(items: Seq<Seq<char>>, a: Seq<Seq<char>>, b: Seq<Seq<char>>)
    ensures
        add_all(items, a + b) == add_all(add_all(items, a), b),
    decreases b.len(),
{
    if b.len() == 0 {
        assert(a + b =~= a);
    } else {
        assert((a + b).drop_last() =~= a + b.drop_last());
        assert((a + b).last() == b.last());
        lemma_add_all_concat(items, a, b.drop_last());
    }
}

/// Walks a callback and collects the paths it reads, in first-read order.
pub struct HookDepsExtractor<'a> {
    pub component_ctxt: u32,
    pub deps: LinkedHashSet<String>,
    pub ignored_hooks: &'a IdentKeySet,
}

/// The text that `p` adds to a dependency path.
pub fn member_prop_to_path(p: &MemberProp) -> (r: String)
    ensures
        r@ == seg_of(prop_model(*p)),
{
    let mut path = String::from_str("?.");
    proof {
        reveal_strlit("?.");
        reveal_strlit("[");
        reveal_strlit("]");
        reveal_strlit("\"");
    }
    match p {
        MemberProp::Named(name) => {
            path.append(name.as_str());
            assert(path@ =~= seg_of(prop_model(*p)));
            path
        },
        MemberProp::Private(_) => path,
        MemberProp::Computed(e) => {
            path.append("[");
            match &**e {
                Expr::Ident(i) => {
                    path.append(i.sym.as_str());
                    path.append("]");
                },
                Expr::Num(t) => {
                    path.append(t.as_str());
                    path.append("]");
                },
                Expr::Str(s) => {
                    path.append("\"");
                    path.append(s.as_str());
                    path.append("\"");
                    path.append("]");
                },
                _ => {},
            }
            assert(path@ =~= seg_of(prop_model(*p)));
            path
        },
    }
}

/// The identifier that the member chain `e` starts from, if any.
pub fn chain_root_of(e: &Expr) -> (r: Option<&Ident>)
    ensures
        match r {
            Some(i) => chain_root(expr_model(*e)) == Some(i@),
            None => chain_root(expr_model(*e)) is None,
        },
    decreases e,
{
    match e {
        Expr::Ident(i) => Some(i),
        Expr::Member(o, _) => chain_root_of(&**o),
        _ => None,
    }
}

/// The path of the member chain `e`.
pub fn chain_path_of(e: &Expr) -> (r: String)
    ensures
        r@ == chain_path(expr_model(*e)),
    decreases e,
{
    match e {
        Expr::Ident(i) => i.sym.clone(),
        Expr::Member(o, p) => {
            let mut s = chain_path_of(&**o);
            let seg = member_prop_to_path(p);
            s.append(seg.as_str());
            s
        },
        _ => String::new(),
    }
}

impl<'a> HookDepsExtractor<'a> {
    /// `self` is `before` with the paths `ps` added in turn.
    pub open spec fn records(self, before: Self, ps: Seq<Seq<char>>) -> bool {
        &&& self.component_ctxt == before.component_ctxt
        &&& self.ignored_hooks == before.ignored_hooks
        &&& ordered_paths(self.deps) == add_all(ordered_paths(before.deps), ps)
    }

    pub fn new(component_ctxt: u32, ignored_hooks: &'a IdentKeySet) -> (r: Self)
        ensures
            r.component_ctxt == component_ctxt,
            r.ignored_hooks == ignored_hooks,
            ordered_paths(r.deps) == Seq::<Seq<char>>::empty(),
    {
        HookDepsExtractor { component_ctxt, deps: new_path_set(), ignored_hooks }
    }

    pub fn is_declared_in_component(&self, ident: &Ident) -> (r: bool)
        ensures
            r == (ident.ctxt == self.component_ctxt),
    {
        ident.ctxt == self.component_ctxt
    }

    fn record(&mut self, p: String)
        ensures
            final(self).records(*old(self), seq![p@]),
    {
        let ghost before = ordered_paths(self.deps);
        let ghost q = p@;
        let _ = insert_path(&mut self.deps, p);
        assert(seq![q].drop_last() =~= Seq::<Seq<char>>::empty());
        assert(add_all(before, seq![q]) == add_path(add_all(before, Seq::empty()), q));
    }

    pub fn visit_ident(&mut self, n: &Ident)
        ensures
            final(self).records(
                *old(self),
                emit_ident(n@, old(self).component_ctxt, old(self).ignored_hooks@),
            ),
    {
        if !self.is_declared_in_component(n) || self.ignored_hooks.contains(n) {
            return ;
        }
        self.record(n.sym.clone());
    }

    /// Records the path of the member access `o.p`, preceded by the path of `o`
    /// when the access is the callee of a call.
    pub fn visit_member_expr(&mut self, o: &Expr, p: &MemberProp, callee: bool)
        ensures
            final(self).records(
                *old(self),
                emit_member(
                    expr_model(*o),
                    prop_model(*p),
                    callee,
                    old(self).component_ctxt,
                    old(self).ignored_hooks@,
                ),
            ),
    {
        let root = match chain_root_of(o) {
            Some(root) => root,
            None => return ,
        };
        if !self.is_declared_in_component(root) || self.ignored_hooks.contains(root) {
            return ;
        }
        let ghost start = *self;
        let mut dep = chain_path_of(o);
        if callee {
            self.record(dep.clone());
        }
        let seg = member_prop_to_path(p);
        dep.append(seg.as_str());
        self.record(dep);
        proof {
            let head: Seq<Seq<char>> = if callee {
                seq![chain_path(expr_model(*o))]
            } else {
                Seq::empty()
            };
            if !callee {
                assert(add_all(ordered_paths(start.deps), head) == ordered_paths(start.deps));
            }
            lemma_add_all_concat(
                ordered_paths(start.deps),
                head,
                seq![chain_path(expr_model(*o)) + seg_of(prop_model(*p))],
            );
        }
    }

    pub fn visit_expr(&mut self, e: &Expr)
        ensures
            final(self).records(
                *old(self),
                emit_expr(expr_model(*e), old(self).component_ctxt, old(self).ignored_hooks@),
            ),
        decreases e,
    {
        let ghost a = self.component_ctxt;
        let ghost ig = self.ignored_hooks@;
        let ghost o = ordered_paths(self.deps);
        match e {
            Expr::Ident(i) => {
                assert(expr_model(*e) == ExprM::Ident(i@));
                assert(emit_expr(expr_model(*e), a, ig) == emit_ident(i@, a, ig));
                self.visit_ident(i);
            },
            Expr::Num(_) => {
                assert(add_all(o, Seq::empty()) == o);
            },
            Expr::Str(_) => {
                assert(add_all(o, Seq::empty()) == o);
            },
            Expr::Member(obj, p) => self.visit_member_expr(&**obj, p, false),
            Expr::Call(c, args) => {
                let ghost head = match expr_model(**c) {
                    ExprM::Member(mo, mp) => emit_member(*mo, mp, true, a, ig),
                    _ => emit_expr(expr_model(**c), a, ig),
                };
                match &**c {
                    Expr::Member(obj, p) => self.visit_member_expr(&**obj, p, true),
                    _ => self.visit_expr(&**c),
                }
                self.visit_exprs(args);
                proof {
                    lemma_add_all_concat(o, head, emit_exprs(exprs_model(args@), a, ig));
                }
            },
            Expr::Func(ps, b) => {
                assert(block_model(*b).stmts == stmts_model(b.stmts@));
                self.visit_pats(ps);
                self.visit_stmts(&b.stmts);
                proof {
                    lemma_add_all_concat(
                        o,
                        emit_pats(pats_model(ps@), a, ig),
                        emit_stmts(stmts_model(b.stmts@), a, ig),
                    );
                }
            },
            Expr::Arrow(ps, body) => {
                self.visit_pats(ps);
                self.visit_expr(&**body);
                proof {
                    lemma_add_all_concat(
                        o,
                        emit_pats(pats_model(ps@), a, ig),
                        emit_expr(expr_model(**body), a, ig),
                    );
                }
            },
            Expr::Array(es) => self.visit_exprs(es),
            Expr::Other(es) => self.visit_exprs(es),
        }
    }

    pub fn visit_exprs(&mut self, es: &Vec<Expr>)
        ensures
            final(self).records(
                *old(self),
                emit_exprs(exprs_model(es@), old(self).component_ctxt, old(self).ignored_hooks@),
            ),
        decreases es,
    {
        let ghost a = self.component_ctxt;
        let ghost ig = self.ignored_hooks@;
        let ghost start = *self;
        let ghost m = exprs_model(es@);
        let mut i: usize = 0;
        while i < es.len()
            invariant
                0 <= i <= es@.len(),
                m == exprs_model(es@),
                a == start.component_ctxt,
                ig == start.ignored_hooks@,
                self.records(start, emit_exprs(m.take(i as int), a, ig)),
            decreases es@.len() - i,
        {
            self.visit_expr(&es[i]);
            proof {
                assert(m.take(i + 1).drop_last() =~= m.take(i as int));
                assert(m.take(i + 1).last() == expr_model(es@[i as int]));
                lemma_add_all_concat(
                    ordered_paths(start.deps),
                    emit_exprs(m.take(i as int), a, ig),
                    emit_expr(m[i as int], a, ig),
                );
            }
            i = i + 1;
        }
        assert(m.take(m.len() as int) =~= m);
    }

    pub fn visit_pat(&mut self, p: &Pat)
        ensures
            final(self).records(
                *old(self),
                emit_pat(pat_model(*p), old(self).component_ctxt, old(self).ignored_hooks@),
            ),
        decreases p,
    {
        match p {
            Pat::Ident(i) => self.visit_ident(i),
            Pat::Array(ps) => self.visit_pats(ps),
            Pat::Hole => {},
            Pat::Other(ps) => self.visit_pats(ps),
        }
    }

    pub fn visit_pats(&mut self, ps: &Vec<Pat>)
        ensures
            final(self).records(
                *old(self),
                emit_pats(pats_model(ps@), old(self).component_ctxt, old(self).ignored_hooks@),
            ),
        decreases ps,
    {
        let ghost a = self.component_ctxt;
        let ghost ig = self.ignored_hooks@;
        let ghost start = *self;
        let ghost m = pats_model(ps@);
        let mut i: usize = 0;
        while i < ps.len()
            invariant
                0 <= i <= ps@.len(),
                m == pats_model(ps@),
                a == start.component_ctxt,
                ig == start.ignored_hooks@,
                self.records(start, emit_pats(m.take(i as int), a, ig)),
            decreases ps@.len() - i,
        {
            self.visit_pat(&ps[i]);
            proof {
                assert(m.take(i + 1).drop_last() =~= m.take(i as int));
                assert(m.take(i + 1).last() == pat_model(ps@[i as int]));
                lemma_add_all_concat(
                    ordered_paths(start.deps),
                    emit_pats(m.take(i as int), a, ig),
                    emit_pat(m[i as int], a, ig),
                );
            }
            i = i + 1;
        }
        assert(m.take(m.len() as int) =~= m);
    }

    pub fn visit_stmt(&mut self, s: &Stmt)
        ensures
            final(self).records(
                *old(self),
                emit_stmt(stmt_model(*s), old(self).component_ctxt, old(self).ignored_hooks@),
            ),
        decreases s,
    {
        let ghost a = self.component_ctxt;
        let ghost ig = self.ignored_hooks@;
        let ghost o = ordered_paths(self.deps);
        match s {
            Stmt::Expr(e) => self.visit_expr(e),
            Stmt::Block(b) => self.visit_stmts(&b.stmts),
            Stmt::Var(ds) => self.visit_decls(ds),
            Stmt::Other(es, ss) => {
                self.visit_exprs(es);
                self.visit_stmts(ss);
                proof {
                    lemma_add_all_concat(
                        o,
                        emit_exprs(exprs_model(es@), a, ig),
                        emit_stmts(stmts_model(ss@), a, ig),
                    );
                }
            },
        }
    }

    pub fn visit_stmts(&mut self, ss: &Vec<Stmt>)
        ensures
            final(self).records(
                *old(self),
                emit_stmts(stmts_model(ss@), old(self).component_ctxt, old(self).ignored_hooks@),
            ),
        decreases ss,
    {
        let ghost a = self.component_ctxt;
        let ghost ig = self.ignored_hooks@;
        let ghost start = *self;
        let ghost m = stmts_model(ss@);
        let mut i: usize = 0;
        while i < ss.len()
            invariant
                0 <= i <= ss@.len(),
                m == stmts_model(ss@),
                a == start.component_ctxt,
                ig == start.ignored_hooks@,
                self.records(start, emit_stmts(m.take(i as int), a, ig)),
            decreases ss@.len() - i,
        {
            self.visit_stmt(&ss[i]);
            proof {
                assert(m.take(i + 1).drop_last() =~= m.take(i as int));
                assert(m.take(i + 1).last() == stmt_model(ss@[i as int]));
                lemma_add_all_concat(
                    ordered_paths(start.deps),
                    emit_stmts(m.take(i as int), a, ig),
                    emit_stmt(m[i as int], a, ig),
                );
            }
            i = i + 1;
        }
        assert(m.take(m.len() as int) =~= m);
    }

    pub fn visit_decl(&mut self, d: &Declarator)
        ensures
            final(self).records(
                *old(self),
                emit_decl(decl_model(*d), old(self).component_ctxt, old(self).ignored_hooks@),
            ),
        decreases d,
    {
        let ghost a = self.component_ctxt;
        let ghost ig = self.ignored_hooks@;
        let ghost o = ordered_paths(self.deps);
        self.visit_pat(&d.name);
        match &d.init {
            Some(e) => self.visit_expr(e),
            None => {},
        }
        proof {
            let tail = match decl_model(*d).init {
                Some(e) => emit_expr(e, a, ig),
                None => Seq::empty(),
            };
            lemma_add_all_concat(o, emit_pat(pat_model(d.name), a, ig), tail);
        }
    }

    pub fn visit_decls(&mut self, ds: &Vec<Declarator>)
        ensures
            final(self).records(
                *old(self),
                emit_decls(decls_model(ds@), old(self).component_ctxt, old(self).ignored_hooks@),
            ),
        decreases ds,
    {
        let ghost a = self.component_ctxt;
        let ghost ig = self.ignored_hooks@;
        let ghost start = *self;
        let ghost m = decls_model(ds@);
        let mut i: usize = 0;
        while i < ds.len()
            invariant
                0 <= i <= ds@.len(),
                m == decls_model(ds@),
                a == start.component_ctxt,
                ig == start.ignored_hooks@,
                self.records(start, emit_decls(m.take(i as int), a, ig)),
            decreases ds@.len() - i,
        {
            self.visit_decl(&ds[i]);
            proof {
                assert(m.take(i + 1).drop_last() =~= m.take(i as int));
                assert(m.take(i + 1).last() == decl_model(ds@[i as int]));
                lemma_add_all_concat(
                    ordered_paths(start.deps),
                    emit_decls(m.take(i as int), a, ig),
                    emit_decl(m[i as int], a, ig),
                );
            }
            i = i + 1;
        }
        assert(m.take(m.len() as int) =~= m);
    }
}

/// The dependency list of `callback` for an anchor block `anchor` whose
/// excluded bindings are `ignored`.
pub fn extract_deps(callback: &Expr, anchor: u32, ignored: &IdentKeySet) -> (r: Vec<String>)
    ensures
        r@.len() == deps_of(expr_model(*callback), anchor, ignored@).len(),
        forall|i: int|
            0 <= i < r@.len() ==> #[trigger] r@[i]@ == deps_of(expr_model(*callback), anchor, ignored@)[i],
{
    let mut x = HookDepsExtractor::new(anchor, ignored);
    x.visit_expr(callback);
    paths_in_order(&x.deps)
}

} // verus!
