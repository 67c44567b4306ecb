//! A value model of the JavaScript syntax tree fragments that the
//! instrumentation engine inspects and rewrites.
//!
//! The executable types mirror the shapes the engine cares about: function
//! declarations, variable declarators whose initializer is a function
//! expression, classes with methods and constructors, object-literal methods,
//! and simple assignments. Everything the engine never looks into is carried
//! as an opaque `Other` node holding a caller-chosen handle, so a host can
//! round-trip the parts of a real tree that the engine leaves alone.
//!
//! Each executable type has a ghost counterpart (`StmtV`, `ExprV`, ...) built
//! from `Seq` and `Seq<char>`, and a view function mapping one to the other.
//! All contracts in this crate are stated over the ghost counterparts.

use vstd::prelude::*;

verus! {

/// Kind of a variable declaration statement.
#[derive(Debug, Clone, Copy, PartialEq, Eq)]
pub enum VarKind {
    Var,
    Let,
    Const,
}

/// A binding pattern: an identifier, or an opaque pattern the engine does not
/// inspect (destructuring and the like).
#[derive(Debug, PartialEq, Eq)]
pub enum BindingPat {
    Ident(String),
    Other(u64),
}

/// A property key: a plain identifier, or an opaque key (computed, string or
/// numeric keys), which the engine never matches against.
#[derive(Debug, PartialEq, Eq)]
pub enum PropKey {
    Ident(String),
    Other(u64),
}

/// The parts of a function shared by declarations, expressions and methods.
#[derive(Debug, PartialEq, Eq)]
pub struct Function {
    pub is_async: bool,
    pub is_generator: bool,
    pub params: Vec<BindingPat>,
    /// `None` models a body-less function shape.
    pub body: Option<Vec<Stmt>>,
}

/// `function name(...) { ... }` as a statement.
#[derive(Debug, PartialEq, Eq)]
pub struct FnDecl {
    pub name: String,
    pub func: Function,
}

/// One `name = init` declarator of a variable declaration.
#[derive(Debug, PartialEq, Eq)]
pub struct VarDeclarator {
    pub name: BindingPat,
    pub init: Option<Expr>,
}

/// `var`/`let`/`const` statement.
#[derive(Debug, PartialEq, Eq)]
pub struct VarDecl {
    pub kind: VarKind,
    pub decls: Vec<VarDeclarator>,
}

/// `class Name { ... }` as a statement.
#[derive(Debug, PartialEq, Eq)]
pub struct ClassDecl {
    pub name: String,
    pub members: Vec<ClassMember>,
}

/// `class [Name] { ... }` in expression position.
#[derive(Debug, PartialEq, Eq)]
pub struct ClassExpr {
    pub name: Option<String>,
    pub members: Vec<ClassMember>,
}

/// A named (non-constructor) method of a class.
#[derive(Debug, PartialEq, Eq)]
pub struct ClassMethod {
    pub key: PropKey,
    pub func: Function,
}

/// A class constructor.
#[derive(Debug, PartialEq, Eq)]
pub struct Constructor {
    pub params: Vec<BindingPat>,
    pub body: Option<Vec<Stmt>>,
}

/// A method of an object literal.
#[derive(Debug, PartialEq, Eq)]
pub struct MethodProp {
    pub key: PropKey,
    pub func: Function,
}

/// `function [name](...) { ... }` in expression position.
#[derive(Debug, PartialEq, Eq)]
pub struct FnExpr {
    pub name: Option<String>,
    pub func: Function,
}

/// The left-hand side of a simple assignment.
#[derive(Debug, PartialEq, Eq)]
pub enum AssignTarget {
    Ident(String),
    Member { obj: Box<Expr>, prop: PropKey },
    Other(u64),
}

/// `target = right`.
#[derive(Debug, PartialEq, Eq)]
pub struct AssignExpr {
    pub target: AssignTarget,
    pub right: Box<Expr>,
}

/// A property of an object literal.
#[derive(Debug, PartialEq, Eq)]
pub enum Prop {
    Method(MethodProp),
    KeyValue { key: PropKey, value: Expr },
    Shorthand(String),
    Other(u64),
}

/// A member of a class body.
#[derive(Debug, PartialEq, Eq)]
pub enum ClassMember {
    Method(ClassMethod),
    Ctor(Constructor),
    Other(u64),
}

/// An expression.
#[derive(Debug, PartialEq, Eq)]
pub enum Expr {
    Ident(String),
    Str(String),
    Null,
    This,
    FnExpr(FnExpr),
    Arrow { is_async: bool, params: Vec<BindingPat>, body: Vec<Stmt> },
    Class(ClassExpr),
    Assign(AssignExpr),
    Call { callee: Box<Expr>, args: Vec<Expr> },
    Member { obj: Box<Expr>, prop: String },
    Object(Vec<Prop>),
    Not(Box<Expr>),
    Other(u64),
}

/// A statement (or module item).
#[derive(Debug, PartialEq, Eq)]
pub enum Stmt {
    FnDecl(FnDecl),
    VarDecl(VarDecl),
    ClassDecl(ClassDecl),
    Expr(Expr),
    Return(Option<Expr>),
    If { cond: Expr, cons: Box<Stmt>, alt: Option<Box<Stmt>> },
    Block(Vec<Stmt>),
    Try {
        block: Vec<Stmt>,
        catch_param: Option<String>,
        catch: Option<Vec<Stmt>>,
        finally: Option<Vec<Stmt>>,
    },
    Throw(Expr),
    /// `import { imported as local } from 'src';`
    ImportNamed { imported: String, local: String, src: String },
    /// `const { imported: local } = require('src');`
    RequireNamed { imported: String, local: String, src: String },
    Other(u64),
}

/// Whether a program is an ECMAScript module or a classic script.
#[derive(Debug, Clone, Copy, PartialEq, Eq)]
pub enum ProgramKind {
    Module,
    Script,
}

/// A whole parsed program.
#[derive(Debug, PartialEq, Eq)]
pub struct Program {
    pub kind: ProgramKind,
    pub body: Vec<Stmt>,
}

// ---------------------------------------------------------------------------
// Ghost counterparts.
//
// `Box` positions of the executable types become singleton `Seq`s here, since
// specification code cannot allocate a box; a view of a well-formed tree
// always puts exactly one element in such a sequence.
// ---------------------------------------------------------------------------

pub enum PatV {
    Ident(Seq<char>),
    Other(u64),
}

pub enum KeyV {
    Ident(Seq<char>),
    Other(u64),
}

pub struct FunctionV {
    pub is_async: bool,
    pub is_generator: bool,
    pub params: Seq<PatV>,
    pub body: Option<Seq<StmtV>>,
}

pub struct FnDeclV {
    pub name: Seq<char>,
    pub func: FunctionV,
}

pub struct DeclaratorV {
    pub name: PatV,
    pub init: Option<ExprV>,
}

pub struct VarDeclV {
    pub kind: VarKind,
    pub decls: Seq<DeclaratorV>,
}

pub struct ClassDeclV {
    pub name: Seq<char>,
    pub members: Seq<MemberV>,
}

pub struct ClassExprV {
    pub name: Option<Seq<char>>,
    pub members: Seq<MemberV>,
}

pub struct ClassMethodV {
    pub key: KeyV,
    pub func: FunctionV,
}

pub struct ConstructorV {
    pub params: Seq<PatV>,
    pub body: Option<Seq<StmtV>>,
}

pub struct MethodPropV {
    pub key: KeyV,
    pub func: FunctionV,
}

pub struct FnExprV {
    pub name: Option<Seq<char>>,
    pub func: FunctionV,
}

pub enum TargetV {
    Ident(Seq<char>),
    Member { obj: Seq<ExprV>, prop: KeyV },
    Other(u64),
}

pub struct AssignExprV {
    pub target: TargetV,
    pub right: Seq<ExprV>,
}

pub enum PropV {
    Method(MethodPropV),
    KeyValue { key: KeyV, value: ExprV },
    Shorthand(Seq<char>),
    Other(u64),
}

pub enum MemberV {
    Method(ClassMethodV),
    Ctor(ConstructorV),
    Other(u64),
}

pub enum ExprV {
    Ident(Seq<char>),
    Str(Seq<char>),
    Null,
    This,
    FnExpr(FnExprV),
    Arrow { is_async: bool, params: Seq<PatV>, body: Seq<StmtV> },
    Class(ClassExprV),
    Assign(AssignExprV),
    Call { callee: Seq<ExprV>, args: Seq<ExprV> },
    Member { obj: Seq<ExprV>, prop: Seq<char> },
    Object(Seq<PropV>),
    Not(Seq<ExprV>),
    Other(u64),
}

pub enum StmtV {
    FnDecl(FnDeclV),
    VarDecl(VarDeclV),
    ClassDecl(ClassDeclV),
    Expr(ExprV),
    Return(Option<ExprV>),
    If { cond: ExprV, cons: Seq<StmtV>, alt: Option<Seq<StmtV>> },
    Block(Seq<StmtV>),
    Try {
        block: Seq<StmtV>,
        catch_param: Option<Seq<char>>,
        catch: Option<Seq<StmtV>>,
        finally: Option<Seq<StmtV>>,
    },
    Throw(ExprV),
    ImportNamed { imported: Seq<char>, local: Seq<char>, src: Seq<char> },
    RequireNamed { imported: Seq<char>, local: Seq<char>, src: Seq<char> },
    Other(u64),
}

pub struct ProgramV {
    pub kind: ProgramKind,
    pub body: Seq<StmtV>,
}

// ---------------------------------------------------------------------------
// View functions.
// ---------------------------------------------------------------------------

pub open spec fn pat_view(p: BindingPat) -> PatV {
    match p {
        BindingPat::Ident(s) => PatV::Ident(s@),
        BindingPat::Other(n) => PatV::Other(n),
    }
}

pub open spec fn pats_view(ps: Seq<BindingPat>) -> Seq<PatV> {
    ps.map_values(|p: BindingPat| pat_view(p))
}

pub open spec fn key_view(k: PropKey) -> KeyV {
    match k {
        PropKey::Ident(s) => KeyV::Ident(s@),
        PropKey::Other(n) => KeyV::Other(n),
    }
}

pub open spec fn opt_str_view(s: Option<String>) -> Option<Seq<char>> {
    match s {
        Option::Some(s) => Option::Some(s@),
        Option::None => Option::None,
    }
}

pub open spec fn fun_view(f: Function) -> FunctionV
    decreases f,
{
    FunctionV {
        is_async: f.is_async,
        is_generator: f.is_generator,
        params: pats_view(f.params@),
        body: match f.body {
            Option::Some(b) => Option::Some(stmts_view(b@)),
            Option::None => Option::None,
        },
    }
}

pub open spec fn stmts_view(ss: Seq<Stmt>) -> Seq<StmtV>
    decreases ss,
{
    if ss.len() == 0 {
        Seq::empty()
    } else {
        seq![stmt_view(ss[0])] + stmts_view(ss.subrange(1, ss.len() as int))
    }
}

pub open spec fn opt_stmts_view(b: Option<Vec<Stmt>>) -> Option<Seq<StmtV>>
    decreases b,
{
    match b {
        Option::Some(b) => Option::Some(stmts_view(b@)),
        Option::None => Option::None,
    }
}

pub open spec fn exprs_view(es: Seq<Expr>) -> Seq<ExprV>
    decreases es,
{
    if es.len() == 0 {
        Seq::empty()
    } else {
        seq![expr_view(es[0])] + exprs_view(es.subrange(1, es.len() as int))
    }
}

pub open spec fn decls_view(ds: Seq<VarDeclarator>) -> Seq<DeclaratorV>
    decreases ds,
{
    if ds.len() == 0 {
        Seq::empty()
    } else {
        seq![decl_view(ds[0])] + decls_view(ds.subrange(1, ds.len() as int))
    }
}

pub open spec fn decl_view(d: VarDeclarator) -> DeclaratorV
    decreases d,
{
    DeclaratorV {
        name: pat_view(d.name),
        init: match d.init {
            Option::Some(e) => Option::Some(expr_view(e)),
            Option::None => Option::None,
        },
    }
}

pub open spec fn members_view(ms: Seq<ClassMember>) -> Seq<MemberV>
    decreases ms,
{
    if ms.len() == 0 {
        Seq::empty()
    } else {
        seq![member_view(ms[0])] + members_view(ms.subrange(1, ms.len() as int))
    }
}

pub open spec fn class_method_view(cm: ClassMethod) -> ClassMethodV
    decreases cm,
{
    ClassMethodV { key: key_view(cm.key), func: fun_view(cm.func) }
}

pub open spec fn constructor_view(c: Constructor) -> ConstructorV
    decreases c,
{
    ConstructorV { params: pats_view(c.params@), body: opt_stmts_view(c.body) }
}

pub open spec fn method_prop_view(mp: MethodProp) -> MethodPropV
    decreases mp,
{
    MethodPropV { key: key_view(mp.key), func: fun_view(mp.func) }
}

pub open spec fn fn_expr_view(fe: FnExpr) -> FnExprV
    decreases fe,
{
    FnExprV { name: opt_str_view(fe.name), func: fun_view(fe.func) }
}

pub open spec fn fn_decl_view(fd: FnDecl) -> FnDeclV
    decreases fd,
{
    FnDeclV { name: fd.name@, func: fun_view(fd.func) }
}

pub open spec fn var_decl_view(vd: VarDecl) -> VarDeclV
    decreases vd,
{
    VarDeclV { kind: vd.kind, decls: decls_view(vd.decls@) }
}

pub open spec fn class_decl_view(cd: ClassDecl) -> ClassDeclV
    decreases cd,
{
    ClassDeclV { name: cd.name@, members: members_view(cd.members@) }
}

pub open spec fn class_expr_view(ce: ClassExpr) -> ClassExprV
    decreases ce,
{
    ClassExprV { name: opt_str_view(ce.name), members: members_view(ce.members@) }
}

pub open spec fn assign_view(ae: AssignExpr) -> AssignExprV
    decreases ae,
{
    AssignExprV { target: target_view(ae.target), right: seq![expr_view(*ae.right)] }
}

pub open spec fn member_view(m: ClassMember) -> MemberV
    decreases m,
{
    match m {
        ClassMember::Method(cm) => MemberV::Method(class_method_view(cm)),
        ClassMember::Ctor(c) => MemberV::Ctor(constructor_view(c)),
        ClassMember::Other(n) => MemberV::Other(n),
    }
}

pub open spec fn props_view(ps: Seq<Prop>) -> Seq<PropV>
    decreases ps,
{
    if ps.len() == 0 {
        Seq::empty()
    } else {
        seq![prop_view(ps[0])] + props_view(ps.subrange(1, ps.len() as int))
    }
}

pub open spec fn prop_view(p: Prop) -> PropV
    decreases p,
{
    match p {
        Prop::Method(mp) => PropV::Method(method_prop_view(mp)),
        Prop::KeyValue { key, value } => PropV::KeyValue {
            key: key_view(key),
            value: expr_view(value),
        },
        Prop::Shorthand(s) => PropV::Shorthand(s@),
        Prop::Other(n) => PropV::Other(n),
    }
}

pub open spec fn target_view(t: AssignTarget) -> TargetV
    decreases t,
{
    match t {
        AssignTarget::Ident(s) => TargetV::Ident(s@),
        AssignTarget::Member { obj, prop } => TargetV::Member {
            obj: seq![expr_view(*obj)],
            prop: key_view(prop),
        },
        AssignTarget::Other(n) => TargetV::Other(n),
    }
}

pub open spec fn expr_view(e: Expr) -> ExprV
    decreases e,
{
    match e {
        Expr::Ident(s) => ExprV::Ident(s@),
        Expr::Str(s) => ExprV::Str(s@),
        Expr::Null => ExprV::Null,
        Expr::This => ExprV::This,
        Expr::FnExpr(fe) => ExprV::FnExpr(fn_expr_view(fe)),
        Expr::Arrow { is_async, params, body } => ExprV::Arrow {
            is_async,
            params: pats_view(params@),
            body: stmts_view(body@),
        },
        Expr::Class(ce) => ExprV::Class(class_expr_view(ce)),
        Expr::Assign(ae) => ExprV::Assign(assign_view(ae)),
        Expr::Call { callee, args } => ExprV::Call {
            callee: seq![expr_view(*callee)],
            args: exprs_view(args@),
        },
        Expr::Member { obj, prop } => ExprV::Member { obj: seq![expr_view(*obj)], prop: prop@ },
        Expr::Object(ps) => ExprV::Object(props_view(ps@)),
        Expr::Not(e) => ExprV::Not(seq![expr_view(*e)]),
        Expr::Other(n) => ExprV::Other(n),
    }
}

pub open spec fn stmt_view(s: Stmt) -> StmtV
    decreases s,
{
    match s {
        Stmt::FnDecl(fd) => StmtV::FnDecl(fn_decl_view(fd)),
        Stmt::VarDecl(vd) => StmtV::VarDecl(var_decl_view(vd)),
        Stmt::ClassDecl(cd) => StmtV::ClassDecl(class_decl_view(cd)),
        Stmt::Expr(e) => StmtV::Expr(expr_view(e)),
        Stmt::Return(oe) => StmtV::Return(
            match oe {
                Option::Some(e) => Option::Some(expr_view(e)),
                Option::None => Option::None,
            },
        ),
        Stmt::If { cond, cons, alt } => StmtV::If {
            cond: expr_view(cond),
            cons: seq![stmt_view(*cons)],
            alt: match alt {
                Option::Some(a) => Option::Some(seq![stmt_view(*a)]),
                Option::None => Option::None,
            },
        },
        Stmt::Block(ss) => StmtV::Block(stmts_view(ss@)),
        Stmt::Try { block, catch_param, catch, finally } => StmtV::Try {
            block: stmts_view(block@),
            catch_param: opt_str_view(catch_param),
            catch: opt_stmts_view(catch),
            finally: opt_stmts_view(finally),
        },
        Stmt::Throw(e) => StmtV::Throw(expr_view(e)),
        Stmt::ImportNamed { imported, local, src } => StmtV::ImportNamed {
            imported: imported@,
            local: local@,
            src: src@,
        },
        Stmt::RequireNamed { imported, local, src } => StmtV::RequireNamed {
            imported: imported@,
            local: local@,
            src: src@,
        },
        Stmt::Other(n) => StmtV::Other(n),
    }
}

pub open spec fn program_view(p: Program) -> ProgramV {
    ProgramV { kind: p.kind, body: stmts_view(p.body@) }
}

// ---------------------------------------------------------------------------
// Basic facts about the list views.
// ---------------------------------------------------------------------------

/// A list view is the element-wise view.
pub proof fn lemma_stmts_view_index(ss: Seq<Stmt>)
    ensures
        stmts_view(ss).len() == ss.len(),
        forall|i: int| 0 <= i < ss.len() ==> stmts_view(ss)[i] == stmt_view(ss[i]),
    decreases ss,
{
    if ss.len() > 0 {
        lemma_stmts_view_index(ss.subrange(1, ss.len() as int));
    }
}

/// A list view is the element-wise view.
pub proof fn lemma_exprs_view_index(es: Seq<Expr>)
    ensures
        exprs_view(es).len() == es.len(),
        forall|i: int| 0 <= i < es.len() ==> exprs_view(es)[i] == expr_view(es[i]),
    decreases es,
{
    if es.len() > 0 {
        lemma_exprs_view_index(es.subrange(1, es.len() as int));
    }
}

/// A list view is the element-wise view.
pub proof fn lemma_decls_view_index(ds: Seq<VarDeclarator>)
    ensures
        decls_view(ds).len() == ds.len(),
        forall|i: int| 0 <= i < ds.len() ==> decls_view(ds)[i] == decl_view(ds[i]),
    decreases ds,
{
    if ds.len() > 0 {
        lemma_decls_view_index(ds.subrange(1, ds.len() as int));
    }
}

/// A list view is the element-wise view.
pub proof fn lemma_members_view_index(ms: Seq<ClassMember>)
    ensures
        members_view(ms).len() == ms.len(),
        forall|i: int| 0 <= i < ms.len() ==> members_view(ms)[i] == member_view(ms[i]),
    decreases ms,
{
    if ms.len() > 0 {
        lemma_members_view_index(ms.subrange(1, ms.len() as int));
    }
}

/// A list view is the element-wise view.
pub proof fn lemma_props_view_index(ps: Seq<Prop>)
    ensures
        props_view(ps).len() == ps.len(),
        forall|i: int| 0 <= i < ps.len() ==> props_view(ps)[i] == prop_view(ps[i]),
    decreases ps,
{
    if ps.len() > 0 {
        lemma_props_view_index(ps.subrange(1, ps.len() as int));
    }
}


} // verus!
