//! High-level IR: the name-resolved program with modules flattened.
//! All identifiers are fully qualified; handlers are collected.

use crate::ast::{BinaryOp, Literal, Sigil, Type};
use crate::ir::same_opt_name;
use std::collections::HashMap;
use vstd::prelude::*;

verus! {

/// A whole program in high-level IR.
#[derive(Debug, Clone)]
pub struct HirProgram {
    pub types: Vec<HirTypeDef>,
    pub enums: Vec<HirEnumDef>,
    pub exceptions: Vec<HirExceptionDef>,
    pub ports: Vec<HirPort>,
    pub functions: Vec<HirFunction>,
    pub externals: Vec<HirExternal>,
    /// binding name to handler binding (port name and method implementations)
    pub handler_bindings: HashMap<String, HirHandlerBinding>,
    pub global_lets: Vec<HirGlobalLet>,
}

/// The port a handler implements and its method implementations.
#[derive(Debug, Clone)]
pub struct HirHandlerBinding {
    pub port_name: String,
    pub functions: Vec<HirFunction>,
}

/// A record type definition.
#[derive(Debug, Clone)]
pub struct HirTypeDef {
    pub name: String,
    pub type_params: Vec<String>,
    pub fields: Vec<(String, Type)>,
}

/// An enum type definition.
#[derive(Debug, Clone)]
pub struct HirEnumDef {
    pub name: String,
    pub is_opaque: bool,
    pub type_params: Vec<String>,
    pub variants: Vec<HirVariantDef>,
}

/// One variant of an enum, with optionally named fields.
#[derive(Debug, Clone)]
pub struct HirVariantDef {
    pub name: String,
    pub fields: Vec<(Option<String>, Type)>,
}

/// An exception definition.
#[derive(Debug, Clone)]
pub struct HirExceptionDef {
    pub name: String,
    pub fields: Vec<(Option<String>, Type)>,
}

/// A port: an interface of effectful methods.
#[derive(Debug, Clone)]
pub struct HirPort {
    pub name: String,
    pub functions: Vec<HirPortMethod>,
}

/// The signature of one port method.
#[derive(Debug, Clone)]
pub struct HirPortMethod {
    pub name: String,
    pub params: Vec<HirParam>,
    pub ret_type: Type,
    pub requires: Type,
    pub effects: Type,
}

/// A function imported from a WebAssembly module.
#[derive(Debug, Clone)]
pub struct HirExternal {
    pub name: String,
    pub wasm_module: String,
    pub wasm_name: String,
    pub params: Vec<HirParam>,
    pub ret_type: Type,
    pub effects: Type,
}

/// A function definition; `name` is fully qualified ("module::fn_name").
#[derive(Debug)]
pub struct HirFunction {
    pub name: String,
    pub params: Vec<HirParam>,
    pub ret_type: Type,
    /// row of required ports
    pub requires: Type,
    /// row of effects
    pub effects: Type,
    pub body: Vec<HirStmt>,
}

/// A function parameter with its call-site label.
#[derive(Debug)]
pub struct HirParam {
    pub name: String,
    pub label: String,
    pub sigil: Sigil,
    pub typ: Type,
}

/// A top-level `let`.
#[derive(Debug, Clone)]
pub struct HirGlobalLet {
    pub name: String,
    pub typ: Option<Type>,
    pub value: HirExpr,
}

/// A statement.
#[derive(Debug)]
pub enum HirStmt {
    Let { name: String, sigil: Sigil, typ: Option<Type>, value: HirExpr },
    Expr(HirExpr),
    Return(HirExpr),
    Assign { target: HirExpr, value: HirExpr },
    Conc(Vec<HirFunction>),
    Try { body: Vec<HirStmt>, catch_param: String, catch_body: Vec<HirStmt> },
    Inject { handlers: Vec<String>, body: Vec<HirStmt> },
}

/// An expression.
#[derive(Debug)]
#[allow(inconsistent_fields)]
pub enum HirExpr {
    Literal(Literal),
    Variable(String, Sigil),
    BinaryOp(Box<HirExpr>, BinaryOp, Box<HirExpr>),
    Borrow(String, Sigil),
    Call { func: String, args: Vec<(String, HirExpr)> },
    PortCall { port: String, method: String, args: Vec<(String, HirExpr)> },
    Constructor { enum_name: String, variant: String, args: Vec<HirExpr> },
    Record(Vec<(String, HirExpr)>),
    Array(Vec<HirExpr>),
    Index(Box<HirExpr>, Box<HirExpr>),
    FieldAccess(Box<HirExpr>, String),
    If { cond: Box<HirExpr>, then_branch: Vec<HirStmt>, else_branch: Option<Vec<HirStmt>> },
    Match { target: Box<HirExpr>, cases: Vec<HirMatchCase> },
    Lambda {
        type_params: Vec<String>,
        params: Vec<HirParam>,
        ret_type: Type,
        requires: Type,
        effects: Type,
        body: Vec<HirStmt>,
    },
    Raise(Box<HirExpr>),
    External(String, Vec<String>, Type),
    Handler { coeffect_name: String, requires: Type, functions: Vec<HirFunction> },
}

/// One arm of a `match`.
#[derive(Debug)]
pub struct HirMatchCase {
    pub pattern: HirPattern,
    pub body: Vec<HirStmt>,
}

/// A pattern; a record pattern's flag says whether it ends with `..`.
#[derive(Debug)]
pub enum HirPattern {
    Literal(Literal),
    Variable(String, Sigil),
    Constructor { enum_name: String, variant: String, fields: Vec<(Option<String>, HirPattern)> },
    Record(Vec<(String, HirPattern)>, bool),
    Wildcard,
}



broadcast use {
    vstd::std_specs::vec::axiom_vec_decreases_to_view,
    vstd::std_specs::vec::axiom_vec_index_decreases,
    vstd::seq::axiom_seq_index_decreases,
};

// Sameness of IR values: equal field by field, with strings, vectors and
// types compared by their contents.

/// `a` and `b` are the same optional type.
pub open spec fn same_opt_type(a: Option<Type>, b: Option<Type>) -> bool {
    match (a, b) {
        (Some(x), Some(y)) => x.model() == y.model(),
        (None, None) => true,
        _ => false,
    }
}

/// `a` and `b` are the same parameter.
pub open spec fn same_param(a: HirParam, b: HirParam) -> bool {
    &&& a.name@ == b.name@
    &&& a.label@ == b.label@
    &&& a.sigil == b.sigil
    &&& a.typ.model() == b.typ.model()
}

/// `a` and `b` are the same parameters, in order.
pub open spec fn same_params(a: Seq<HirParam>, b: Seq<HirParam>) -> bool {
    a.len() == b.len() && forall|i: int| 0 <= i < a.len() ==> same_param(#[trigger] a[i], b[i])
}

/// `a` and `b` are the same expression.
pub open spec fn same_expr(a: HirExpr, b: HirExpr) -> bool
    decreases a, 0int,
{
    match (a, b) {
        (HirExpr::Literal(x), HirExpr::Literal(y)) => x == y,
        (HirExpr::Variable(n, s), HirExpr::Variable(m, t)) => n@ == m@ && s == t,
        (HirExpr::BinaryOp(x1, op1, y1), HirExpr::BinaryOp(x2, op2, y2)) => same_expr(*x1, *x2)
            && op1 == op2 && same_expr(*y1, *y2),
        (HirExpr::Borrow(n, s), HirExpr::Borrow(m, t)) => n@ == m@ && s == t,
        (HirExpr::Call { func: f1, args: a1 }, HirExpr::Call { func: f2, args: a2 }) => f1@ == f2@
            && same_labelled_exprs(a1@, a2@),
        (
            HirExpr::PortCall { port: p1, method: m1, args: a1 },
            HirExpr::PortCall { port: p2, method: m2, args: a2 },
        ) => p1@ == p2@ && m1@ == m2@ && same_labelled_exprs(a1@, a2@),
        (
            HirExpr::Constructor { enum_name: e1, variant: v1, args: a1 },
            HirExpr::Constructor { enum_name: e2, variant: v2, args: a2 },
        ) => e1@ == e2@ && v1@ == v2@ && same_exprs(a1@, a2@),
        (HirExpr::Record(f1), HirExpr::Record(f2)) => same_labelled_exprs(f1@, f2@),
        (HirExpr::Array(i1), HirExpr::Array(i2)) => same_exprs(i1@, i2@),
        (HirExpr::Index(x1, y1), HirExpr::Index(x2, y2)) => same_expr(*x1, *x2) && same_expr(
            *y1,
            *y2,
        ),
        (HirExpr::FieldAccess(x1, f1), HirExpr::FieldAccess(x2, f2)) => same_expr(*x1, *x2)
            && f1@ == f2@,
        (
            HirExpr::If { cond: c1, then_branch: t1, else_branch: e1 },
            HirExpr::If { cond: c2, then_branch: t2, else_branch: e2 },
        ) => same_expr(*c1, *c2) && same_stmts(t1@, t2@) && match (e1, e2) {
            (Some(x), Some(y)) => same_stmts(x@, y@),
            (None, None) => true,
            _ => false,
        },
        (HirExpr::Match { target: t1, cases: c1 }, HirExpr::Match { target: t2, cases: c2 }) =>
            same_expr(*t1, *t2) && same_cases(c1@, c2@),
        (
            HirExpr::Lambda {
                type_params: tp1,
                params: p1,
                ret_type: r1,
                requires: q1,
                effects: e1,
                body: b1,
            },
            HirExpr::Lambda {
                type_params: tp2,
                params: p2,
                ret_type: r2,
                requires: q2,
                effects: e2,
                body: b2,
            },
        ) => tp1@ == tp2@ && same_params(p1@, p2@) && r1.model() == r2.model() && q1.model()
            == q2.model() && e1.model() == e2.model() && same_stmts(b1@, b2@),
        (HirExpr::Raise(x1), HirExpr::Raise(x2)) => same_expr(*x1, *x2),
        (HirExpr::External(n1, ps1, t1), HirExpr::External(n2, ps2, t2)) => n1@ == n2@ && ps1@
            == ps2@ && t1.model() == t2.model(),
        (
            HirExpr::Handler { coeffect_name: n1, requires: q1, functions: f1 },
            HirExpr::Handler { coeffect_name: n2, requires: q2, functions: f2 },
        ) => n1@ == n2@ && q1.model() == q2.model() && same_functions(f1@, f2@),
        _ => false,
    }
}

/// `a` and `b` are the same expressions, in order.
pub open spec fn same_exprs(a: Seq<HirExpr>, b: Seq<HirExpr>) -> bool
    decreases a, 1int,
{
    a.len() == b.len() && forall|i: int| 0 <= i < a.len() ==> same_expr(#[trigger] a[i], b[i])
}

/// `a` and `b` are the same labelled expressions, in order.
pub open spec fn same_labelled_exprs(a: Seq<(String, HirExpr)>, b: Seq<(String, HirExpr)>) -> bool
    decreases a, 1int,
{
    a.len() == b.len() && forall|i: int|
        0 <= i < a.len() ==> (#[trigger] a[i]).0@ == b[i].0@ && same_expr(a[i].1, b[i].1)
}

/// `a` and `b` are the same statement.
pub open spec fn same_stmt(a: HirStmt, b: HirStmt) -> bool
    decreases a, 0int,
{
    match (a, b) {
        (
            HirStmt::Let { name: n1, sigil: s1, typ: t1, value: v1 },
            HirStmt::Let { name: n2, sigil: s2, typ: t2, value: v2 },
        ) => n1@ == n2@ && s1 == s2 && same_opt_type(t1, t2) && same_expr(v1, v2),
        (HirStmt::Expr(x), HirStmt::Expr(y)) => same_expr(x, y),
        (HirStmt::Return(x), HirStmt::Return(y)) => same_expr(x, y),
        (
            HirStmt::Assign { target: t1, value: v1 },
            HirStmt::Assign { target: t2, value: v2 },
        ) => same_expr(t1, t2) && same_expr(v1, v2),
        (HirStmt::Conc(f1), HirStmt::Conc(f2)) => same_functions(f1@, f2@),
        (
            HirStmt::Try { body: b1, catch_param: p1, catch_body: c1 },
            HirStmt::Try { body: b2, catch_param: p2, catch_body: c2 },
        ) => same_stmts(b1@, b2@) && p1@ == p2@ && same_stmts(c1@, c2@),
        (
            HirStmt::Inject { handlers: h1, body: b1 },
            HirStmt::Inject { handlers: h2, body: b2 },
        ) => h1@ == h2@ && same_stmts(b1@, b2@),
        _ => false,
    }
}

/// `a` and `b` are the same statements, in order.
pub open spec fn same_stmts(a: Seq<HirStmt>, b: Seq<HirStmt>) -> bool
    decreases a, 1int,
{
    a.len() == b.len() && forall|i: int| 0 <= i < a.len() ==> same_stmt(#[trigger] a[i], b[i])
}

/// `a` and `b` are the same function.
pub open spec fn same_function(a: HirFunction, b: HirFunction) -> bool
    decreases a, 0int,
{
    &&& a.name@ == b.name@
    &&& same_params(a.params@, b.params@)
    &&& a.ret_type.model() == b.ret_type.model()
    &&& a.requires.model() == b.requires.model()
    &&& a.effects.model() == b.effects.model()
    &&& same_stmts(a.body@, b.body@)
}

/// `a` and `b` are the same functions, in order.
pub open spec fn same_functions(a: Seq<HirFunction>, b: Seq<HirFunction>) -> bool
    decreases a, 1int,
{
    a.len() == b.len() && forall|i: int| 0 <= i < a.len() ==> same_function(#[trigger] a[i], b[i])
}

/// `a` and `b` are the same `match` arms, in order.
pub open spec fn same_cases(a: Seq<HirMatchCase>, b: Seq<HirMatchCase>) -> bool
    decreases a, 1int,
{
    a.len() == b.len() && forall|i: int|
        0 <= i < a.len() ==> same_pattern((#[trigger] a[i]).pattern, b[i].pattern) && same_stmts(
            a[i].body@,
            b[i].body@,
        )
}

/// `a` and `b` are the same pattern.
pub open spec fn same_pattern(a: HirPattern, b: HirPattern) -> bool
    decreases a, 0int,
{
    match (a, b) {
        (HirPattern::Literal(x), HirPattern::Literal(y)) => x == y,
        (HirPattern::Variable(n, s), HirPattern::Variable(m, t)) => n@ == m@ && s == t,
        (
            HirPattern::Constructor { enum_name: e1, variant: v1, fields: f1 },
            HirPattern::Constructor { enum_name: e2, variant: v2, fields: f2 },
        ) => e1@ == e2@ && v1@ == v2@ && same_positional_patterns(f1@, f2@),
        (HirPattern::Record(f1, r1), HirPattern::Record(f2, r2)) => same_named_patterns(f1@, f2@)
            && r1 == r2,
        (HirPattern::Wildcard, HirPattern::Wildcard) => true,
        _ => false,
    }
}

/// `a` and `b` are the same optionally named sub-patterns, in order.
pub open spec fn same_positional_patterns(
    a: Seq<(Option<String>, HirPattern)>,
    b: Seq<(Option<String>, HirPattern)>,
) -> bool
    decreases a, 1int,
{
    a.len() == b.len() && forall|i: int|
        0 <= i < a.len() ==> same_opt_name((#[trigger] a[i]).0, b[i].0) && same_pattern(
            a[i].1,
            b[i].1,
        )
}

/// `a` and `b` are the same named sub-patterns, in order.
pub open spec fn same_named_patterns(a: Seq<(String, HirPattern)>, b: Seq<(String, HirPattern)>) -> bool
    decreases a, 1int,
{
    a.len() == b.len() && forall|i: int|
        0 <= i < a.len() ==> (#[trigger] a[i]).0@ == b[i].0@ && same_pattern(a[i].1, b[i].1)
}

impl Clone for HirParam {
    /// A copy of this parameter.
    fn clone(&self) -> (r: Self)
        ensures
            same_param(*self, r),
    {
        HirParam {
            name: self.name.clone(),
            label: self.label.clone(),
            sigil: self.sigil,
            typ: self.typ.clone(),
        }
    }
}

fn clone_params(v: &Vec<HirParam>) -> (r: Vec<HirParam>)
    ensures
        same_params(v@, r@),
{
    let mut r: Vec<HirParam> = Vec::new();
    let mut i: usize = 0;
    while i < v.len()
        invariant
            i <= v@.len(),
            r@.len() == i,
            forall|j: int| 0 <= j < i ==> same_param(#[trigger] v@[j], r@[j]),
        decreases v.len() - i,
    {
        r.push(v[i].clone());
        i = i + 1;
    }
    r
}

fn clone_opt_type(t: &Option<Type>) -> (r: Option<Type>)
    ensures
        same_opt_type(*t, r),
{
    match t {
        Some(x) => Some(x.clone()),
        None => None,
    }
}

fn clone_strings(v: &Vec<String>) -> (r: Vec<String>)
    ensures
        r@ == v@,
{
    let r = v.clone();
    assert(r@ =~= v@);
    r
}

fn clone_expr(e: &HirExpr) -> (r: HirExpr)
    ensures
        same_expr(*e, r),
    decreases e, 1int,
{
    match e {
        HirExpr::Literal(l) => HirExpr::Literal(l.clone()),
        HirExpr::Variable(n, s) => HirExpr::Variable(n.clone(), *s),
        HirExpr::BinaryOp(a, op, b) => HirExpr::BinaryOp(
            Box::new(clone_expr(a)),
            *op,
            Box::new(clone_expr(b)),
        ),
        HirExpr::Borrow(n, s) => HirExpr::Borrow(n.clone(), *s),
        HirExpr::Call { func, args } => HirExpr::Call {
            func: func.clone(),
            args: clone_labelled_exprs(args),
        },
        HirExpr::PortCall { port, method, args } => HirExpr::PortCall {
            port: port.clone(),
            method: method.clone(),
            args: clone_labelled_exprs(args),
        },
        HirExpr::Constructor { enum_name, variant, args } => HirExpr::Constructor {
            enum_name: enum_name.clone(),
            variant: variant.clone(),
            args: clone_exprs(args),
        },
        HirExpr::Record(fields) => HirExpr::Record(clone_labelled_exprs(fields)),
        HirExpr::Array(items) => HirExpr::Array(clone_exprs(items)),
        HirExpr::Index(a, b) => HirExpr::Index(Box::new(clone_expr(a)), Box::new(clone_expr(b))),
        HirExpr::FieldAccess(a, f) => HirExpr::FieldAccess(Box::new(clone_expr(a)), f.clone()),
        HirExpr::If { cond, then_branch, else_branch } => HirExpr::If {
            cond: Box::new(clone_expr(cond)),
            then_branch: clone_stmts(then_branch),
            else_branch: match else_branch {
                Some(b) => Some(clone_stmts(b)),
                None => None,
            },
        },
        HirExpr::Match { target, cases } => HirExpr::Match {
            target: Box::new(clone_expr(target)),
            cases: clone_cases(cases),
        },
        HirExpr::Lambda { type_params, params, ret_type, requires: required, effects, body } =>
            HirExpr::Lambda {
            type_params: clone_strings(type_params),
            params: clone_params(params),
            ret_type: ret_type.clone(),
            requires: required.clone(),
            effects: effects.clone(),
            body: clone_stmts(body),
        },
        HirExpr::Raise(a) => HirExpr::Raise(Box::new(clone_expr(a))),
        HirExpr::External(n, ps, t) => HirExpr::External(n.clone(), clone_strings(ps), t.clone()),
        HirExpr::Handler { coeffect_name, requires: required, functions } => HirExpr::Handler {
            coeffect_name: coeffect_name.clone(),
            requires: required.clone(),
            functions: clone_functions(functions),
        },
    }
}

fn clone_exprs(v: &Vec<HirExpr>) -> (r: Vec<HirExpr>)
    ensures
        same_exprs(v@, r@),
    decreases v, 0int,
{
    let mut r: Vec<HirExpr> = Vec::new();
    let mut i: usize = 0;
    while i < v.len()
        invariant
            i <= v@.len(),
            r@.len() == i,
            forall|j: int| 0 <= j < i ==> same_expr(#[trigger] v@[j], r@[j]),
        decreases v.len() - i,
    {
        proof {
            vstd::std_specs::vec::axiom_vec_index_decreases(*v, i as int);
        }
        r.push(clone_expr(&v[i]));
        i = i + 1;
    }
    r
}

fn clone_labelled_exprs(v: &Vec<(String, HirExpr)>) -> (r: Vec<(String, HirExpr)>)
    ensures
        same_labelled_exprs(v@, r@),
    decreases v, 0int,
{
    let mut r: Vec<(String, HirExpr)> = Vec::new();
    let mut i: usize = 0;
    while i < v.len()
        invariant
            i <= v@.len(),
            r@.len() == i,
            forall|j: int|
                0 <= j < i ==> (#[trigger] v@[j]).0@ == r@[j].0@ && same_expr(v@[j].1, r@[j].1),
        decreases v.len() - i,
    {
        proof {
            vstd::std_specs::vec::axiom_vec_index_decreases(*v, i as int);
        }
        r.push((v[i].0.clone(), clone_expr(&v[i].1)));
        i = i + 1;
    }
    r
}

fn clone_stmt(s: &HirStmt) -> (r: HirStmt)
    ensures
        same_stmt(*s, r),
    decreases s, 1int,
{
    match s {
        HirStmt::Let { name, sigil, typ, value } => HirStmt::Let {
            name: name.clone(),
            sigil: *sigil,
            typ: clone_opt_type(typ),
            value: clone_expr(value),
        },
        HirStmt::Expr(e) => HirStmt::Expr(clone_expr(e)),
        HirStmt::Return(e) => HirStmt::Return(clone_expr(e)),
        HirStmt::Assign { target, value } => HirStmt::Assign {
            target: clone_expr(target),
            value: clone_expr(value),
        },
        HirStmt::Conc(fs) => HirStmt::Conc(clone_functions(fs)),
        HirStmt::Try { body, catch_param, catch_body } => HirStmt::Try {
            body: clone_stmts(body),
            catch_param: catch_param.clone(),
            catch_body: clone_stmts(catch_body),
        },
        HirStmt::Inject { handlers, body } => HirStmt::Inject {
            handlers: clone_strings(handlers),
            body: clone_stmts(body),
        },
    }
}

fn clone_stmts(v: &Vec<HirStmt>) -> (r: Vec<HirStmt>)
    ensures
        same_stmts(v@, r@),
    decreases v, 0int,
{
    let mut r: Vec<HirStmt> = Vec::new();
    let mut i: usize = 0;
    while i < v.len()
        invariant
            i <= v@.len(),
            r@.len() == i,
            forall|j: int| 0 <= j < i ==> same_stmt(#[trigger] v@[j], r@[j]),
        decreases v.len() - i,
    {
        proof {
            vstd::std_specs::vec::axiom_vec_index_decreases(*v, i as int);
        }
        r.push(clone_stmt(&v[i]));
        i = i + 1;
    }
    r
}

fn clone_function(f: &HirFunction) -> (r: HirFunction)
    ensures
        same_function(*f, r),
    decreases f, 1int,
{
    HirFunction {
        name: f.name.clone(),
        params: clone_params(&f.params),
        ret_type: f.ret_type.clone(),
        requires: f.requires.clone(),
        effects: f.effects.clone(),
        body: clone_stmts(&f.body),
    }
}

fn clone_functions(v: &Vec<HirFunction>) -> (r: Vec<HirFunction>)
    ensures
        same_functions(v@, r@),
    decreases v, 0int,
{
    let mut r: Vec<HirFunction> = Vec::new();
    let mut i: usize = 0;
    while i < v.len()
        invariant
            i <= v@.len(),
            r@.len() == i,
            forall|j: int| 0 <= j < i ==> same_function(#[trigger] v@[j], r@[j]),
        decreases v.len() - i,
    {
        proof {
            vstd::std_specs::vec::axiom_vec_index_decreases(*v, i as int);
        }
        r.push(clone_function(&v[i]));
        i = i + 1;
    }
    r
}

fn clone_cases(v: &Vec<HirMatchCase>) -> (r: Vec<HirMatchCase>)
    ensures
        same_cases(v@, r@),
    decreases v, 0int,
{
    let mut r: Vec<HirMatchCase> = Vec::new();
    let mut i: usize = 0;
    while i < v.len()
        invariant
            i <= v@.len(),
            r@.len() == i,
            forall|j: int|
                0 <= j < i ==> same_pattern((#[trigger] v@[j]).pattern, r@[j].pattern)
                    && same_stmts(v@[j].body@, r@[j].body@),
        decreases v.len() - i,
    {
        proof {
            vstd::std_specs::vec::axiom_vec_index_decreases(*v, i as int);
        }
        r.push(HirMatchCase { pattern: clone_pattern(&v[i].pattern), body: clone_stmts(&v[i].body) });
        i = i + 1;
    }
    r
}

fn clone_pattern(p: &HirPattern) -> (r: HirPattern)
    ensures
        same_pattern(*p, r),
    decreases p, 1int,
{
    match p {
        HirPattern::Literal(l) => HirPattern::Literal(l.clone()),
        HirPattern::Variable(n, s) => HirPattern::Variable(n.clone(), *s),
        HirPattern::Constructor { enum_name, variant, fields } => HirPattern::Constructor {
            enum_name: enum_name.clone(),
            variant: variant.clone(),
            fields: clone_positional_patterns(fields),
        },
        HirPattern::Record(fields, rest) => HirPattern::Record(clone_named_patterns(fields), *rest),
        HirPattern::Wildcard => HirPattern::Wildcard,
    }
}

fn clone_positional_patterns(v: &Vec<(Option<String>, HirPattern)>) -> (r: Vec<(Option<String>, HirPattern)>)
    ensures
        same_positional_patterns(v@, r@),
    decreases v, 0int,
{
    let mut r: Vec<(Option<String>, HirPattern)> = Vec::new();
    let mut i: usize = 0;
    while i < v.len()
        invariant
            i <= v@.len(),
            r@.len() == i,
            forall|j: int|
                0 <= j < i ==> same_opt_name((#[trigger] v@[j]).0, r@[j].0) && same_pattern(
                    v@[j].1,
                    r@[j].1,
                ),
        decreases v.len() - i,
    {
        proof {
            vstd::std_specs::vec::axiom_vec_index_decreases(*v, i as int);
        }
        let label = match &v[i].0 {
            Some(n) => Some(n.clone()),
            None => None,
        };
        r.push((label, clone_pattern(&v[i].1)));
        i = i + 1;
    }
    r
}

fn clone_named_patterns(v: &Vec<(String, HirPattern)>) -> (r: Vec<(String, HirPattern)>)
    ensures
        same_named_patterns(v@, r@),
    decreases v, 0int,
{
    let mut r: Vec<(String, HirPattern)> = Vec::new();
    let mut i: usize = 0;
    while i < v.len()
        invariant
            i <= v@.len(),
            r@.len() == i,
            forall|j: int|
                0 <= j < i ==> (#[trigger] v@[j]).0@ == r@[j].0@ && same_pattern(v@[j].1, r@[j].1),
        decreases v.len() - i,
    {
        proof {
            vstd::std_specs::vec::axiom_vec_index_decreases(*v, i as int);
        }
        r.push((v[i].0.clone(), clone_pattern(&v[i].1)));
        i = i + 1;
    }
    r
}

impl Clone for HirExpr {
    /// A copy of this expression.
    fn clone(&self) -> (r: Self)
        ensures
            same_expr(*self, r),
    {
        clone_expr(self)
    }
}

impl Clone for HirStmt {
    /// A copy of this statement.
    fn clone(&self) -> (r: Self)
        ensures
            same_stmt(*self, r),
    {
        clone_stmt(self)
    }
}

impl Clone for HirFunction {
    /// A copy of this function.
    fn clone(&self) -> (r: Self)
        ensures
            same_function(*self, r),
    {
        clone_function(self)
    }
}

impl Clone for HirMatchCase {
    /// A copy of this arm.
    fn clone(&self) -> (r: Self)
        ensures
            same_pattern(self.pattern, r.pattern),
            same_stmts(self.body@, r.body@),
    {
        HirMatchCase { pattern: clone_pattern(&self.pattern), body: clone_stmts(&self.body) }
    }
}

impl Clone for HirPattern {
    /// A copy of this pattern.
    fn clone(&self) -> (r: Self)
        ensures
            same_pattern(*self, r),
    {
        clone_pattern(self)
    }
}

} // verus!
