use crate::ast::{
    block_model, decl_model, prop_model, decls_model, expr_model, exprs_model, pat_model, pats_model, stmt_model,
    stmts_model, Block, DeclM, Declarator, Expr, ExprM, MemberProp, Pat, PatM, PropM, Stmt, StmtM,
};
use crate::imports::ImportsExtractor;
use crate::keys::IdentKeySet;
use vstd::prelude::*;

verus! {

broadcast use vstd::std_specs::vec::group_vec_axioms;

/// The bindings of the state, reducer and ref hooks seen so far.
pub struct HookSets {
    pub state: Set<Seq<char>>,
    pub reducer: Set<Seq<char>>,
    pub refs: Set<Seq<char>>,
}

/// The binding that a declarator makes which is not to be tracked, if any: the
/// whole handle of a ref hook, or the setter (second element) of a state or
/// reducer hook.
pub open spec fn ignored_key(d: DeclM, h: HookSets) -> Option<Seq<char>> {
    match d.init {
        Some(ExprM::Call(c, _)) => match *c {
            ExprM::Ident(callee) => if h.refs.contains(callee.sym) {
                match d.name {
                    PatM::Ident(i) => Some(i.sym),
                    _ => None,
                }
            } else if h.state.contains(callee.sym) || h.reducer.contains(callee.sym) {
                match d.name {
                    PatM::Array(els) => if els.len() > 1 {
                        match els[1] {
                            PatM::Ident(i) => Some(i.sym),
                            _ => None,
                        }
                    } else {
                        None
                    },
                    _ => None,
                }
            } else {
                None
            },
            _ => None,
        },
        _ => None,
    }
}

pub open spec fn key_set(k: Option<Seq<char>>) -> Set<Seq<char>> {
    match k {
        Some(k) => Set::empty().insert(k),
        None => Set::empty(),
    }
}

/// The bindings excluded by the declarators found anywhere in `e`: in the
/// bodies of functions it holds, and in theirs. A declarator's own
/// initializer is not searched.
pub open spec fn ignored_expr(e: ExprM, h: HookSets) -> Set<Seq<char>>
    decreases e,
{
    match e {
        ExprM::Member(o, p) => ignored_expr(*o, h).union(
            match p {
                PropM::Computed(ce) => ignored_expr(*ce, h),
                _ => Set::empty(),
            },
        ),
        ExprM::Call(c, args) => ignored_expr(*c, h).union(ignored_exprs(args, h)),
        ExprM::Func(_, b) => ignored_stmts(b.stmts, h),
        ExprM::Arrow(_, body) => ignored_expr(*body, h),
        ExprM::Array(es) => ignored_exprs(es, h),
        ExprM::Other(es) => ignored_exprs(es, h),
        _ => Set::empty(),
    }
}

pub open spec fn ignored_exprs(s: Seq<ExprM>, h: HookSets) -> Set<Seq<char>>
    decreases s,
{
    if s.len() == 0 {
        Set::empty()
    } else {
        ignored_exprs(s.drop_last(), h).union(ignored_expr(s.last(), h))
    }
}

/// The bindings excluded by the declarators found anywhere in `s`.
pub open spec fn ignored_stmt(s: StmtM, h: HookSets) -> Set<Seq<char>>
    decreases s,
{
    match s {
        StmtM::Expr(e) => ignored_expr(e, h),
        StmtM::Block(b) => ignored_stmts(b.stmts, h),
        StmtM::Var(ds) => ignored_decls(ds, h),
        StmtM::Other(es, ss) => ignored_exprs(es, h).union(ignored_stmts(ss, h)),
    }
}

pub open spec fn ignored_stmts(s: Seq<StmtM>, h: HookSets) -> Set<Seq<char>>
    decreases s,
{
    if s.len() == 0 {
        Set::empty()
    } else {
        ignored_stmts(s.drop_last(), h).union(ignored_stmt(s.last(), h))
    }
}

pub open spec fn ignored_decls(s: Seq<DeclM>, h: HookSets) -> Set<Seq<char>>
    decreases s,
{
    if s.len() == 0 {
        Set::empty()
    } else {
        ignored_decls(s.drop_last(), h).union(key_set(ignored_key(s.last(), h)))
    }
}

/// Collects the bindings of a block that hooks make and that are not tracked.
pub struct IgnoredHooksExtractor<'a> {
    pub idents: IdentKeySet,
    pub use_state_imports: &'a ImportsExtractor,
    pub use_reducer_imports: &'a ImportsExtractor,
    pub use_ref_imports: &'a ImportsExtractor,
}

impl<'a> IgnoredHooksExtractor<'a> {
    pub open spec fn hooks(&self) -> HookSets {
        HookSets {
            state: self.use_state_imports.specifiers@,
            reducer: self.use_reducer_imports.specifiers@,
            refs: self.use_ref_imports.specifiers@,
        }
    }

    pub fn new(
        use_state_imports: &'a ImportsExtractor,
        use_reducer_imports: &'a ImportsExtractor,
        use_ref_imports: &'a ImportsExtractor,
    ) -> (r: Self)
        ensures
            r.idents@ == Set::<Seq<char>>::empty(),
            r.use_state_imports == use_state_imports,
            r.use_reducer_imports == use_reducer_imports,
            r.use_ref_imports == use_ref_imports,
    {
        IgnoredHooksExtractor {
            idents: IdentKeySet::new(),
            use_state_imports,
            use_reducer_imports,
            use_ref_imports,
        }
    }

    pub fn visit_var_declarator(&mut self, n: &Declarator)
        ensures
            final(self).hooks() == old(self).hooks(),
            final(self).idents@ == match ignored_key(decl_model(*n), old(self).hooks()) {
                Some(k) => old(self).idents@.insert(k),
                None => old(self).idents@,
            },
    {
        let call = match &n.init {
            Some(Expr::Call(callee, _)) => callee,
            _ => return ,
        };
        let callee = match &**call {
            Expr::Ident(callee) => callee,
            _ => return ,
        };
        if self.use_ref_imports.contains(callee) {
            match &n.name {
                Pat::Ident(id) => self.idents.insert(id),
                _ => {},
            }
            return ;
        }
        if !(self.use_state_imports.contains(callee) || self.use_reducer_imports.contains(callee)) {
            return ;
        }
        match &n.name {
            Pat::Array(elems) => {
                if elems.len() > 1 {
                    assert(decl_model(*n).name == PatM::Array(pats_model(elems@)));
                    assert(pats_model(elems@)[1] == pat_model(elems@[1]));
                    match &elems[1] {
                        Pat::Ident(id) => self.idents.insert(id),
                        _ => {},
                    }
                }
            },
            _ => {},
        }
    }

    pub fn visit_expr(&mut self, e: &Expr)
        ensures
            final(self).hooks() == old(self).hooks(),
            final(self).idents@ == old(self).idents@.union(ignored_expr(expr_model(*e), old(self).hooks())),
        decreases e,
    {
        let ghost h = self.hooks();
        let ghost o = self.idents@;
        match e {
            Expr::Member(obj, p) => {
                self.visit_expr(&**obj);
                match p {
                    MemberProp::Computed(ce) => {
                        assert(prop_model(*p) == PropM::Computed(Box::new(expr_model(**ce))));
                        self.visit_expr(&**ce);
                    },
                    _ => {
                        assert(!(prop_model(*p) is Computed));
                    },
                }
                assert(self.idents@ =~= o.union(ignored_expr(expr_model(*e), h)));
            },
            Expr::Call(c, args) => {
                self.visit_expr(&**c);
                self.visit_exprs(args);
                assert(self.idents@ =~= o.union(ignored_expr(expr_model(*e), h)));
            },
            Expr::Func(_, b) => {
                assert(block_model(*b).stmts == stmts_model(b.stmts@));
                self.visit_stmts(&b.stmts);
            },
            Expr::Arrow(_, body) => self.visit_expr(&**body),
            Expr::Array(es) => self.visit_exprs(es),
            Expr::Other(es) => self.visit_exprs(es),
            _ => {
                assert(self.idents@ =~= o.union(ignored_expr(expr_model(*e), h)));
            },
        }
    }

    pub fn visit_exprs(&mut self, es: &Vec<Expr>)
        ensures
            final(self).hooks() == old(self).hooks(),
            final(self).idents@ == old(self).idents@.union(ignored_exprs(exprs_model(es@), old(self).hooks())),
        decreases es,
    {
        let ghost h = self.hooks();
        let ghost m = exprs_model(es@);
        let mut i: usize = 0;
        while i < es.len()
            invariant
                0 <= i <= es@.len(),
                m == exprs_model(es@),
                self.hooks() == h,
                h == old(self).hooks(),
                self.idents@ == old(self).idents@.union(ignored_exprs(m.take(i as int), h)),
            decreases es@.len() - i,
        {
            self.visit_expr(&es[i]);
            assert(m.take(i + 1).drop_last() =~= m.take(i as int));
            assert(m.take(i + 1).last() == expr_model(es@[i as int]));
            assert(self.idents@ =~= old(self).idents@.union(ignored_exprs(m.take(i + 1), h)));
            i = i + 1;
        }
        assert(m.take(m.len() as int) =~= m);
    }

    pub fn visit_stmt(&mut self, s: &Stmt)
        ensures
            final(self).hooks() == old(self).hooks(),
            final(self).idents@ == old(self).idents@.union(ignored_stmt(stmt_model(*s), old(self).hooks())),
        decreases s,
    {
        let ghost h = self.hooks();
        let ghost o = self.idents@;
        match s {
            Stmt::Expr(e) => self.visit_expr(e),
            Stmt::Block(b) => self.visit_block(b),
            Stmt::Var(ds) => self.visit_decls(ds),
            Stmt::Other(es, ss) => {
                self.visit_exprs(es);
                self.visit_stmts(ss);
                assert(self.idents@ =~= o.union(ignored_stmt(stmt_model(*s), h)));
            },
        }
    }

    pub fn visit_stmts(&mut self, ss: &Vec<Stmt>)
        ensures
            final(self).hooks() == old(self).hooks(),
            final(self).idents@ == old(self).idents@.union(ignored_stmts(stmts_model(ss@), old(self).hooks())),
        decreases ss,
    {
        let ghost h = self.hooks();
        let ghost m = stmts_model(ss@);
        let mut i: usize = 0;
        while i < ss.len()
            invariant
                0 <= i <= ss@.len(),
                m == stmts_model(ss@),
                self.hooks() == h,
                h == old(self).hooks(),
                self.idents@ == old(self).idents@.union(ignored_stmts(m.take(i as int), h)),
            decreases ss@.len() - i,
        {
            self.visit_stmt(&ss[i]);
            assert(m.take(i + 1).drop_last() =~= m.take(i as int));
            assert(m.take(i + 1).last() == stmt_model(ss@[i as int]));
            assert(self.idents@ =~= old(self).idents@.union(ignored_stmts(m.take(i + 1), h)));
            i = i + 1;
        }
        assert(m.take(m.len() as int) =~= m);
    }

    pub fn visit_decls(&mut self, ds: &Vec<Declarator>)
        ensures
            final(self).hooks() == old(self).hooks(),
            final(self).idents@ == old(self).idents@.union(ignored_decls(decls_model(ds@), old(self).hooks())),
        decreases ds,
    {
        let ghost h = self.hooks();
        let ghost m = decls_model(ds@);
        let mut i: usize = 0;
        while i < ds.len()
            invariant
                0 <= i <= ds@.len(),
                m == decls_model(ds@),
                self.hooks() == h,
                h == old(self).hooks(),
                self.idents@ == old(self).idents@.union(ignored_decls(m.take(i as int), h)),
            decreases ds@.len() - i,
        {
            self.visit_var_declarator(&ds[i]);
            assert(m.take(i + 1).drop_last() =~= m.take(i as int));
            assert(m.take(i + 1).last() == decl_model(ds@[i as int]));
            assert(self.idents@ =~= old(self).idents@.union(ignored_decls(m.take(i + 1), h)));
            i = i + 1;
        }
        assert(m.take(m.len() as int) =~= m);
    }

    /// Visits the declarations found anywhere below `b`.
    pub fn visit_block(&mut self, b: &Block)
        ensures
            final(self).hooks() == old(self).hooks(),
            final(self).idents@ == old(self).idents@.union(ignored_stmts(stmts_model(b.stmts@), old(self).hooks())),
        decreases b,
    {
        self.visit_stmts(&b.stmts);
    }
}

} // verus!
