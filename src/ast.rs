use vstd::prelude::*;

verus! {

broadcast use vstd::std_specs::vec::group_vec_axioms;

/// An identifier reference or binding: its name and the id of the lexical
/// block it was resolved to.
#[derive(Debug, PartialEq, Eq)]
pub struct Ident {
    pub sym: String,
    pub ctxt: u32,
}

/// The property part of a member access.
#[derive(Debug, PartialEq, Eq)]
pub enum MemberProp {
    /// `obj.name`
    Named(String),
    /// `obj[expr]`
    Computed(Box<Expr>),
    /// `obj.#name`
    Private(String),
}

#[derive(Debug, PartialEq, Eq)]
pub enum Expr {
    Ident(Ident),
    /// A numeric literal, held as the text it prints as.
    Num(String),
    /// A string literal, held as its value.
    Str(String),
    Member(Box<Expr>, MemberProp),
    /// A call: its callee and its positional arguments.
    Call(Box<Expr>, Vec<Expr>),
    /// A function expression or an arrow function with a block body.
    Func(Vec<Pat>, Block),
    /// An arrow function with an expression body.
    Arrow(Vec<Pat>, Box<Expr>),
    Array(Vec<Expr>),
    /// Any other expression, with its subexpressions in source order.
    Other(Vec<Expr>),
}

#[derive(Debug, PartialEq, Eq)]
pub enum Pat {
    Ident(Ident),
    /// A positional destructuring pattern.
    Array(Vec<Pat>),
    /// An elided element of a positional pattern.
    Hole,
    /// Any other pattern, with its subpatterns in source order.
    Other(Vec<Pat>),
}

#[derive(Debug, PartialEq, Eq)]
pub struct Declarator {
    pub name: Pat,
    pub init: Option<Expr>,
}

/// A lexical block and the scope id that the resolver gave it.
#[derive(Debug, PartialEq, Eq)]
pub struct Block {
    pub ctxt: u32,
    pub stmts: Vec<Stmt>,
}

#[derive(Debug, PartialEq, Eq)]
pub enum Stmt {
    Expr(Expr),
    Block(Block),
    Var(Vec<Declarator>),
    /// Any other statement: its expressions, then its statements.
    Other(Vec<Expr>, Vec<Stmt>),
}

/// The name an import specifier takes from the module it imports.
#[derive(Debug, PartialEq, Eq)]
pub enum ExportName {
    Ident(String),
    Str(String),
}

#[derive(Debug, PartialEq, Eq)]
pub enum ImportSpecifier {
    /// `{ imported as local }`, or `{ local }` when `imported` is absent.
    Named(Ident, Option<ExportName>),
    Default(Ident),
    Namespace(Ident),
}

#[derive(Debug, PartialEq, Eq)]
pub struct ImportDecl {
    pub src: String,
    pub specifiers: Vec<ImportSpecifier>,
}

#[derive(Debug, PartialEq, Eq)]
pub enum ModuleItem {
    Import(ImportDecl),
    Stmt(Stmt),
}

#[derive(Debug, PartialEq, Eq)]
pub struct Module {
    pub body: Vec<ModuleItem>,
}

// The mathematical model of a syntax tree: the same shape, with sequences for
// vectors and character sequences for strings.

pub struct IdentM {
    pub sym: Seq<char>,
    pub ctxt: u32,
}

pub enum PropM {
    Named(Seq<char>),
    Computed(Box<ExprM>),
    Private(Seq<char>),
}

pub enum ExprM {
    Ident(IdentM),
    Num(Seq<char>),
    Str(Seq<char>),
    Member(Box<ExprM>, PropM),
    Call(Box<ExprM>, Seq<ExprM>),
    Func(Seq<PatM>, BlockM),
    Arrow(Seq<PatM>, Box<ExprM>),
    Array(Seq<ExprM>),
    Other(Seq<ExprM>),
}

pub enum PatM {
    Ident(IdentM),
    Array(Seq<PatM>),
    Hole,
    Other(Seq<PatM>),
}

pub struct DeclM {
    pub name: PatM,
    pub init: Option<ExprM>,
}

pub struct BlockM {
    pub ctxt: u32,
    pub stmts: Seq<StmtM>,
}

pub enum StmtM {
    Expr(ExprM),
    Block(BlockM),
    Var(Seq<DeclM>),
    Other(Seq<ExprM>, Seq<StmtM>),
}

pub enum ExportNameM {
    Ident(Seq<char>),
    Str(Seq<char>),
}

pub enum SpecifierM {
    Named(IdentM, Option<ExportNameM>),
    Default(IdentM),
    Namespace(IdentM),
}

pub struct ImportM {
    pub src: Seq<char>,
    pub specifiers: Seq<SpecifierM>,
}

pub enum ItemM {
    Import(ImportM),
    Stmt(StmtM),
}

impl View for Ident {
    type V = IdentM;

    open spec fn view(&self) -> IdentM {
        IdentM { sym: self.sym@, ctxt: self.ctxt }
    }
}

pub open spec fn expr_model(e: Expr) -> ExprM
    decreases e,
{
    match e {
        Expr::Ident(i) => ExprM::Ident(i@),
        Expr::Num(s) => ExprM::Num(s@),
        Expr::Str(s) => ExprM::Str(s@),
        Expr::Member(o, p) => ExprM::Member(Box::new(expr_model(*o)), prop_model(p)),
        Expr::Call(c, args) => ExprM::Call(Box::new(expr_model(*c)), exprs_model(args@)),
        Expr::Func(ps, b) => ExprM::Func(pats_model(ps@), block_model(b)),
        Expr::Arrow(ps, body) => ExprM::Arrow(pats_model(ps@), Box::new(expr_model(*body))),
        Expr::Array(es) => ExprM::Array(exprs_model(es@)),
        Expr::Other(es) => ExprM::Other(exprs_model(es@)),
    }
}

pub open spec fn prop_model(p: MemberProp) -> PropM
    decreases p,
{
    match p {
        MemberProp::Named(s) => PropM::Named(s@),
        MemberProp::Computed(e) => PropM::Computed(Box::new(expr_model(*e))),
        MemberProp::Private(s) => PropM::Private(s@),
    }
}

pub open spec fn exprs_model(s: Seq<Expr>) -> Seq<ExprM>
    decreases s,
{
    Seq::new(s.len(), |i: int| if 0 <= i < s.len() { expr_model(s[i]) } else { arbitrary() })
}

pub open spec fn pat_model(p: Pat) -> PatM
    decreases p,
{
    match p {
        Pat::Ident(i) => PatM::Ident(i@),
        Pat::Array(ps) => PatM::Array(pats_model(ps@)),
        Pat::Hole => PatM::Hole,
        Pat::Other(ps) => PatM::Other(pats_model(ps@)),
    }
}

pub open spec fn pats_model(s: Seq<Pat>) -> Seq<PatM>
    decreases s,
{
    Seq::new(s.len(), |i: int| if 0 <= i < s.len() { pat_model(s[i]) } else { arbitrary() })
}

pub open spec fn block_model(b: Block) -> BlockM
    decreases b,
{
    BlockM { ctxt: b.ctxt, stmts: stmts_model(b.stmts@) }
}

pub open spec fn stmts_model(s: Seq<Stmt>) -> Seq<StmtM>
    decreases s,
{
    Seq::new(s.len(), |i: int| if 0 <= i < s.len() { stmt_model(s[i]) } else { arbitrary() })
}

pub open spec fn stmt_model(s: Stmt) -> StmtM
    decreases s,
{
    match s {
        Stmt::Expr(e) => StmtM::Expr(expr_model(e)),
        Stmt::Block(b) => StmtM::Block(block_model(b)),
        Stmt::Var(ds) => StmtM::Var(decls_model(ds@)),
        Stmt::Other(es, ss) => StmtM::Other(exprs_model(es@), stmts_model(ss@)),
    }
}

pub open spec fn decl_model(d: Declarator) -> DeclM
    decreases d,
{
    DeclM {
        name: pat_model(d.name),
        init: match d.init {
            Some(e) => Some(expr_model(e)),
            None => None,
        },
    }
}

pub open spec fn decls_model(s: Seq<Declarator>) -> Seq<DeclM>
    decreases s,
{
    Seq::new(s.len(), |i: int| if 0 <= i < s.len() { decl_model(s[i]) } else { arbitrary() })
}

pub open spec fn export_name_model(n: ExportName) -> ExportNameM {
    match n {
        ExportName::Ident(s) => ExportNameM::Ident(s@),
        ExportName::Str(s) => ExportNameM::Str(s@),
    }
}

pub open spec fn specifier_model(s: ImportSpecifier) -> SpecifierM {
    match s {
        ImportSpecifier::Named(l, Some(n)) => SpecifierM::Named(l@, Some(export_name_model(n))),
        ImportSpecifier::Named(l, None) => SpecifierM::Named(l@, None),
        ImportSpecifier::Default(l) => SpecifierM::Default(l@),
        ImportSpecifier::Namespace(l) => SpecifierM::Namespace(l@),
    }
}

pub open spec fn import_model(d: ImportDecl) -> ImportM {
    ImportM {
        src: d.src@,
        specifiers: Seq::new(d.specifiers@.len(), |i: int| specifier_model(d.specifiers@[i])),
    }
}

pub open spec fn item_model(it: ModuleItem) -> ItemM {
    match it {
        ModuleItem::Import(d) => ItemM::Import(import_model(d)),
        ModuleItem::Stmt(s) => ItemM::Stmt(stmt_model(s)),
    }
}

impl View for Module {
    type V = Seq<ItemM>;

    open spec fn view(&self) -> Seq<ItemM> {
        Seq::new(self.body@.len(), |i: int| item_model(self.body@[i]))
    }
}

/// The name that the `autorun` export is matched under when nothing else is configured.
pub fn default_autorun_symbol() -> (r: String)
    ensures
        r@ == seq!['a', 'u', 't', 'o', 'r', 'u', 'n'],
{
    let r = String::from_str("autorun");
    proof {
        reveal_strlit("autorun");
    }
    r
}

} // verus!
