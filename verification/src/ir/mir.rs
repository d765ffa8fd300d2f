//! Mid-level IR: effects eliminated by evidence passing. There is no
//! inject, handler or port method call; they became evidence parameters
//! and indirect calls.

use crate::ast::{BinaryOp, Literal, Sigil, Type};
use crate::ir::same_opt_name;
use vstd::prelude::*;

verus! {

/// A whole program in mid-level IR.
#[derive(Debug, Clone)]
pub struct MirProgram {
    pub functions: Vec<MirFunction>,
    pub externals: Vec<MirExternal>,
    pub evidence_table: EvidenceTable,
}

/// The table of handler evidence that the program passes around.
#[derive(Debug, Clone)]
pub struct EvidenceTable {
    pub entries: Vec<EvidenceEntry>,
}

/// One entry of the evidence table.
#[derive(Debug, Clone)]
pub struct EvidenceEntry;

impl EvidenceTable {
    /// An empty evidence table.
    pub fn new() -> (table: Self)
        ensures
            table.entries@.len() == 0,
    {
        EvidenceTable { entries: Vec::new() }
    }
}

/// A function imported from a WebAssembly module.
#[derive(Debug, Clone)]
pub struct MirExternal {
    pub name: String,
    pub wasm_module: String,
    pub wasm_name: String,
    pub params: Vec<MirParam>,
    pub ret_type: Type,
    pub effects: Type,
}

/// A function definition.
#[derive(Debug)]
pub struct MirFunction {
    pub name: String,
    pub params: Vec<MirParam>,
    /// Evidence params: one i32 per required port (base index into funcref table)
    pub evidence_params: Vec<MirEvidenceParam>,
    pub ret_type: Type,
    pub body: Vec<MirStmt>,
}

/// A function parameter with its call-site label.
#[derive(Debug)]
pub struct MirParam {
    pub label: String,
    pub name: String,
    pub typ: Type,
}

/// An evidence parameter, named after its port (such as "__ev_Logger").
#[derive(Debug)]
pub struct MirEvidenceParam {
    pub param_name: String,
}

/// A statement.
#[derive(Debug)]
pub enum MirStmt {
    Let { name: String, typ: Type, expr: MirExpr },
    Expr(MirExpr),
    Return(MirExpr),
    Assign { target: MirExpr, value: MirExpr },
    Conc(Vec<MirFunction>),
    Try { body: Vec<MirStmt>, catch_param: String, catch_body: Vec<MirStmt> },
}

/// An expression.
#[derive(Debug)]
#[allow(inconsistent_fields)]
pub enum MirExpr {
    Literal(Literal),
    Variable(String),
    BinaryOp(Box<MirExpr>, BinaryOp, Box<MirExpr>),
    Call {
        func: String,
        args: Vec<(String, MirExpr)>,
        /// Evidence arguments to thread through
        evidence_args: Vec<MirExpr>,
        ret_type: Type,
    },
    Constructor { name: String, args: Vec<MirExpr> },
    Record(Vec<(String, MirExpr)>),
    Array(Vec<MirExpr>),
    Index(Box<MirExpr>, Box<MirExpr>),
    FieldAccess(Box<MirExpr>, String),
    If { cond: Box<MirExpr>, then_body: Vec<MirStmt>, else_body: Option<Vec<MirStmt>> },
    Match { target: Box<MirExpr>, cases: Vec<MirMatchCase> },
    Borrow(String),
    Raise(Box<MirExpr>),
}

/// One arm of a `match`.
#[derive(Debug)]
pub struct MirMatchCase {
    pub pattern: MirPattern,
    pub body: Vec<MirStmt>,
}

/// A pattern; a record pattern's flag says whether it ends with `..`.
#[derive(Debug)]
pub enum MirPattern {
    Literal(Literal),
    Variable(String, Sigil),
    Constructor { name: String, fields: Vec<(Option<String>, MirPattern)> },
    Record(Vec<(String, MirPattern)>, bool),
    Wildcard,
}



broadcast use {
    vstd::std_specs::vec::axiom_vec_decreases_to_view,
    vstd::std_specs::vec::axiom_vec_index_decreases,
    vstd::seq::axiom_seq_index_decreases,
};

// Sameness of IR values: equal field by field, with strings, vectors and
// types compared by their contents.

/// `a` and `b` are the same parameter.
pub open spec fn same_param(a: MirParam, b: MirParam) -> bool {
    &&& a.label@ == b.label@
    &&& a.name@ == b.name@
    &&& a.typ.model() == b.typ.model()
}

/// `a` and `b` are the same parameters, in order.
pub open spec fn same_params(a: Seq<MirParam>, b: Seq<MirParam>) -> bool {
    a.len() == b.len() && forall|i: int| 0 <= i < a.len() ==> same_param(#[trigger] a[i], b[i])
}

/// `a` and `b` are the same evidence parameters, in order.
pub open spec fn same_evidence_params(a: Seq<MirEvidenceParam>, b: Seq<MirEvidenceParam>) -> bool {
    a.len() == b.len() && forall|i: int|
        0 <= i < a.len() ==> (#[trigger] a[i]).param_name@ == b[i].param_name@
}

/// `a` and `b` are the same expression.
pub open spec fn same_expr(a: MirExpr, b: MirExpr) -> bool
    decreases a, 0int,
{
    match (a, b) {
        (MirExpr::Literal(x), MirExpr::Literal(y)) => x == y,
        (MirExpr::Variable(n), MirExpr::Variable(m)) => n@ == m@,
        (MirExpr::BinaryOp(x1, op1, y1), MirExpr::BinaryOp(x2, op2, y2)) => same_expr(*x1, *x2)
            && op1 == op2 && same_expr(*y1, *y2),
        (
            MirExpr::Call { func: f1, args: a1, evidence_args: e1, ret_type: r1 },
            MirExpr::Call { func: f2, args: a2, evidence_args: e2, ret_type: r2 },
        ) => f1@ == f2@ && same_labelled_exprs(a1@, a2@) && same_exprs(e1@, e2@) && r1.model()
            == r2.model(),
        (MirExpr::Constructor { name: n1, args: a1 }, MirExpr::Constructor { name: n2, args: a2 }) =>
            n1@ == n2@ && same_exprs(a1@, a2@),
        (MirExpr::Record(f1), MirExpr::Record(f2)) => same_labelled_exprs(f1@, f2@),
        (MirExpr::Array(i1), MirExpr::Array(i2)) => same_exprs(i1@, i2@),
        (MirExpr::Index(x1, y1), MirExpr::Index(x2, y2)) => same_expr(*x1, *x2) && same_expr(
            *y1,
            *y2,
        ),
        (MirExpr::FieldAccess(x1, f1), MirExpr::FieldAccess(x2, f2)) => same_expr(*x1, *x2)
            && f1@ == f2@,
        (
            MirExpr::If { cond: c1, then_body: t1, else_body: e1 },
            MirExpr::If { cond: c2, then_body: t2, else_body: e2 },
        ) => same_expr(*c1, *c2) && same_stmts(t1@, t2@) && match (e1, e2) {
            (Some(x), Some(y)) => same_stmts(x@, y@),
            (None, None) => true,
            _ => false,
        },
        (MirExpr::Match { target: t1, cases: c1 }, MirExpr::Match { target: t2, cases: c2 }) =>
            same_expr(*t1, *t2) && same_cases(c1@, c2@),
        (MirExpr::Borrow(n), MirExpr::Borrow(m)) => n@ == m@,
        (MirExpr::Raise(x1), MirExpr::Raise(x2)) => same_expr(*x1, *x2),
        _ => false,
    }
}

/// `a` and `b` are the same expressions, in order.
pub open spec fn same_exprs(a: Seq<MirExpr>, b: Seq<MirExpr>) -> bool
    decreases a, 1int,
{
    a.len() == b.len() && forall|i: int| 0 <= i < a.len() ==> same_expr(#[trigger] a[i], b[i])
}

/// `a` and `b` are the same labelled expressions, in order.
pub open spec fn same_labelled_exprs(a: Seq<(String, MirExpr)>, b: Seq<(String, MirExpr)>) -> bool
    decreases a, 1int,
{
    a.len() == b.len() && forall|i: int|
        0 <= i < a.len() ==> (#[trigger] a[i]).0@ == b[i].0@ && same_expr(a[i].1, b[i].1)
}

/// `a` and `b` are the same statement.
pub open spec fn same_stmt(a: MirStmt, b: MirStmt) -> bool
    decreases a, 0int,
{
    match (a, b) {
        (
            MirStmt::Let { name: n1, typ: t1, expr: x1 },
            MirStmt::Let { name: n2, typ: t2, expr: x2 },
        ) => n1@ == n2@ && t1.model() == t2.model() && same_expr(x1, x2),
        (MirStmt::Expr(x), MirStmt::Expr(y)) => same_expr(x, y),
        (MirStmt::Return(x), MirStmt::Return(y)) => same_expr(x, y),
        (
            MirStmt::Assign { target: t1, value: v1 },
            MirStmt::Assign { target: t2, value: v2 },
        ) => same_expr(t1, t2) && same_expr(v1, v2),
        (MirStmt::Conc(f1), MirStmt::Conc(f2)) => same_functions(f1@, f2@),
        (
            MirStmt::Try { body: b1, catch_param: p1, catch_body: c1 },
            MirStmt::Try { body: b2, catch_param: p2, catch_body: c2 },
        ) => same_stmts(b1@, b2@) && p1@ == p2@ && same_stmts(c1@, c2@),
        _ => false,
    }
}

/// `a` and `b` are the same statements, in order.
pub open spec fn same_stmts(a: Seq<MirStmt>, b: Seq<MirStmt>) -> bool
    decreases a, 1int,
{
    a.len() == b.len() && forall|i: int| 0 <= i < a.len() ==> same_stmt(#[trigger] a[i], b[i])
}

/// `a` and `b` are the same function.
pub open spec fn same_function(a: MirFunction, b: MirFunction) -> bool
    decreases a, 0int,
{
    &&& a.name@ == b.name@
    &&& same_params(a.params@, b.params@)
    &&& same_evidence_params(a.evidence_params@, b.evidence_params@)
    &&& a.ret_type.model() == b.ret_type.model()
    &&& same_stmts(a.body@, b.body@)
}

/// `a` and `b` are the same functions, in order.
pub open spec fn same_functions(a: Seq<MirFunction>, b: Seq<MirFunction>) -> bool
    decreases a, 1int,
{
    a.len() == b.len() && forall|i: int| 0 <= i < a.len() ==> same_function(#[trigger] a[i], b[i])
}

/// `a` and `b` are the same `match` arms, in order.
pub open spec fn same_cases(a: Seq<MirMatchCase>, b: Seq<MirMatchCase>) -> bool
    decreases a, 1int,
{
    a.len() == b.len() && forall|i: int|
        0 <= i < a.len() ==> same_pattern((#[trigger] a[i]).pattern, b[i].pattern) && same_stmts(
            a[i].body@,
            b[i].body@,
        )
}

/// `a` and `b` are the same pattern.
pub open spec fn same_pattern(a: MirPattern, b: MirPattern) -> bool
    decreases a, 0int,
{
    match (a, b) {
        (MirPattern::Literal(x), MirPattern::Literal(y)) => x == y,
        (MirPattern::Variable(n, s), MirPattern::Variable(m, t)) => n@ == m@ && s == t,
        (
            MirPattern::Constructor { name: n1, fields: f1 },
            MirPattern::Constructor { name: n2, fields: f2 },
        ) => n1@ == n2@ && same_positional_patterns(f1@, f2@),
        (MirPattern::Record(f1, r1), MirPattern::Record(f2, r2)) => same_named_patterns(f1@, f2@)
            && r1 == r2,
        (MirPattern::Wildcard, MirPattern::Wildcard) => true,
        _ => false,
    }
}

/// `a` and `b` are the same optionally named sub-patterns, in order.
pub open spec fn same_positional_patterns(
    a: Seq<(Option<String>, MirPattern)>,
    b: Seq<(Option<String>, MirPattern)>,
) -> bool
    decreases a, 1int,
{
    a.len() == b.len() && forall|i: int|
        0 <= i < a.len() ==> same_opt_name((#[trigger] a[i]).0, b[i].0) && same_pattern(
            a[i].1,
            b[i].1,
        )
}

/// `a` and `b` are the same named sub-patterns, in order.
pub open spec fn same_named_patterns(a: Seq<(String, MirPattern)>, b: Seq<(String, MirPattern)>) -> bool
    decreases a, 1int,
{
    a.len() == b.len() && forall|i: int|
        0 <= i < a.len() ==> (#[trigger] a[i]).0@ == b[i].0@ && same_pattern(a[i].1, b[i].1)
}

impl Clone for MirParam {
    /// A copy of this parameter.
    fn clone(&self) -> (r: Self)
        ensures
            same_param(*self, r),
    {
        MirParam { label: self.label.clone(), name: self.name.clone(), typ: self.typ.clone() }
    }
}

impl Clone for MirEvidenceParam {
    /// A copy of this evidence parameter.
    fn clone(&self) -> (r: Self)
        ensures
            r.param_name@ == self.param_name@,
    {
        MirEvidenceParam { param_name: self.param_name.clone() }
    }
}

fn clone_params(v: &Vec<MirParam>) -> (r: Vec<MirParam>)
    ensures
        same_params(v@, r@),
{
    let mut r: Vec<MirParam> = Vec::new();
    let mut i: usize = 0;
    while i < v.len()
        invariant
            i <= v@.len(),
            r@.len() == i,
            forall|j: int| 0 <= j < i ==> same_param(#[trigger] v@[j], r@[j]),
        decreases v.len() - i,
    {
        r.push(v[i].clone());
        i = i + 1;
    }
    r
}

fn clone_evidence_params(v: &Vec<MirEvidenceParam>) -> (r: Vec<MirEvidenceParam>)
    ensures
        same_evidence_params(v@, r@),
{
    let mut r: Vec<MirEvidenceParam> = Vec::new();
    let mut i: usize = 0;
    while i < v.len()
        invariant
            i <= v@.len(),
            r@.len() == i,
            forall|j: int| 0 <= j < i ==> (#[trigger] v@[j]).param_name@ == r@[j].param_name@,
        decreases v.len() - i,
    {
        r.push(v[i].clone());
        i = i + 1;
    }
    r
}

fn clone_expr(e: &MirExpr) -> (r: MirExpr)
    ensures
        same_expr(*e, r),
    decreases e, 1int,
{
    match e {
        MirExpr::Literal(l) => MirExpr::Literal(l.clone()),
        MirExpr::Variable(n) => MirExpr::Variable(n.clone()),
        MirExpr::BinaryOp(a, op, b) => MirExpr::BinaryOp(
            Box::new(clone_expr(a)),
            *op,
            Box::new(clone_expr(b)),
        ),
        MirExpr::Call { func, args, evidence_args, ret_type } => MirExpr::Call {
            func: func.clone(),
            args: clone_labelled_exprs(args),
            evidence_args: clone_exprs(evidence_args),
            ret_type: ret_type.clone(),
        },
        MirExpr::Constructor { name, args } => MirExpr::Constructor {
            name: name.clone(),
            args: clone_exprs(args),
        },
        MirExpr::Record(fields) => MirExpr::Record(clone_labelled_exprs(fields)),
        MirExpr::Array(items) => MirExpr::Array(clone_exprs(items)),
        MirExpr::Index(a, b) => MirExpr::Index(Box::new(clone_expr(a)), Box::new(clone_expr(b))),
        MirExpr::FieldAccess(a, f) => MirExpr::FieldAccess(Box::new(clone_expr(a)), f.clone()),
        MirExpr::If { cond, then_body, else_body } => MirExpr::If {
            cond: Box::new(clone_expr(cond)),
            then_body: clone_stmts(then_body),
            else_body: match else_body {
                Some(b) => Some(clone_stmts(b)),
                None => None,
            },
        },
        MirExpr::Match { target, cases } => MirExpr::Match {
            target: Box::new(clone_expr(target)),
            cases: clone_cases(cases),
        },
        MirExpr::Borrow(n) => MirExpr::Borrow(n.clone()),
        MirExpr::Raise(a) => MirExpr::Raise(Box::new(clone_expr(a))),
    }
}

fn clone_exprs(v: &Vec<MirExpr>) -> (r: Vec<MirExpr>)
    ensures
        same_exprs(v@, r@),
    decreases v, 0int,
{
    let mut r: Vec<MirExpr> = Vec::new();
    let mut i: usize = 0;
    while i < v.len()
        invariant
            i <= v@.len(),
            r@.len() == i,
            forall|j: int| 0 <= j < i ==> same_expr(#[trigger] v@[j], r@[j]),
        decreases v.len() - i,
    {
        proof {
            vstd::std_specs::vec::axiom_vec_index_decreases(*v, i as int);
        }
        r.push(clone_expr(&v[i]));
        i = i + 1;
    }
    r
}

fn clone_labelled_exprs(v: &Vec<(String, MirExpr)>) -> (r: Vec<(String, MirExpr)>)
    ensures
        same_labelled_exprs(v@, r@),
    decreases v, 0int,
{
    let mut r: Vec<(String, MirExpr)> = Vec::new();
    let mut i: usize = 0;
    while i < v.len()
        invariant
            i <= v@.len(),
            r@.len() == i,
            forall|j: int|
                0 <= j < i ==> (#[trigger] v@[j]).0@ == r@[j].0@ && same_expr(v@[j].1, r@[j].1),
        decreases v.len() - i,
    {
        proof {
            vstd::std_specs::vec::axiom_vec_index_decreases(*v, i as int);
        }
        r.push((v[i].0.clone(), clone_expr(&v[i].1)));
        i = i + 1;
    }
    r
}

fn clone_stmt(s: &MirStmt) -> (r: MirStmt)
    ensures
        same_stmt(*s, r),
    decreases s, 1int,
{
    match s {
        MirStmt::Let { name, typ, expr } => MirStmt::Let {
            name: name.clone(),
            typ: typ.clone(),
            expr: clone_expr(expr),
        },
        MirStmt::Expr(e) => MirStmt::Expr(clone_expr(e)),
        MirStmt::Return(e) => MirStmt::Return(clone_expr(e)),
        MirStmt::Assign { target, value } => MirStmt::Assign {
            target: clone_expr(target),
            value: clone_expr(value),
        },
        MirStmt::Conc(fs) => MirStmt::Conc(clone_functions(fs)),
        MirStmt::Try { body, catch_param, catch_body } => MirStmt::Try {
            body: clone_stmts(body),
            catch_param: catch_param.clone(),
            catch_body: clone_stmts(catch_body),
        },
    }
}

fn clone_stmts(v: &Vec<MirStmt>) -> (r: Vec<MirStmt>)
    ensures
        same_stmts(v@, r@),
    decreases v, 0int,
{
    let mut r: Vec<MirStmt> = Vec::new();
    let mut i: usize = 0;
    while i < v.len()
        invariant
            i <= v@.len(),
            r@.len() == i,
            forall|j: int| 0 <= j < i ==> same_stmt(#[trigger] v@[j], r@[j]),
        decreases v.len() - i,
    {
        proof {
            vstd::std_specs::vec::axiom_vec_index_decreases(*v, i as int);
        }
        r.push(clone_stmt(&v[i]));
        i = i + 1;
    }
    r
}

fn clone_function(f: &MirFunction) -> (r: MirFunction)
    ensures
        same_function(*f, r),
    decreases f, 1int,
{
    MirFunction {
        name: f.name.clone(),
        params: clone_params(&f.params),
        evidence_params: clone_evidence_params(&f.evidence_params),
        ret_type: f.ret_type.clone(),
        body: clone_stmts(&f.body),
    }
}

fn clone_functions(v: &Vec<MirFunction>) -> (r: Vec<MirFunction>)
    ensures
        same_functions(v@, r@),
    decreases v, 0int,
{
    let mut r: Vec<MirFunction> = Vec::new();
    let mut i: usize = 0;
    while i < v.len()
        invariant
            i <= v@.len(),
            r@.len() == i,
            forall|j: int| 0 <= j < i ==> same_function(#[trigger] v@[j], r@[j]),
        decreases v.len() - i,
    {
        proof {
            vstd::std_specs::vec::axiom_vec_index_decreases(*v, i as int);
        }
        r.push(clone_function(&v[i]));
        i = i + 1;
    }
    r
}

fn clone_cases(v: &Vec<MirMatchCase>) -> (r: Vec<MirMatchCase>)
    ensures
        same_cases(v@, r@),
    decreases v, 0int,
{
    let mut r: Vec<MirMatchCase> = Vec::new();
    let mut i: usize = 0;
    while i < v.len()
        invariant
            i <= v@.len(),
            r@.len() == i,
            forall|j: int|
                0 <= j < i ==> same_pattern((#[trigger] v@[j]).pattern, r@[j].pattern)
                    && same_stmts(v@[j].body@, r@[j].body@),
        decreases v.len() - i,
    {
        proof {
            vstd::std_specs::vec::axiom_vec_index_decreases(*v, i as int);
        }
        r.push(MirMatchCase { pattern: clone_pattern(&v[i].pattern), body: clone_stmts(&v[i].body) });
        i = i + 1;
    }
    r
}

fn clone_pattern(p: &MirPattern) -> (r: MirPattern)
    ensures
        same_pattern(*p, r),
    decreases p, 1int,
{
    match p {
        MirPattern::Literal(l) => MirPattern::Literal(l.clone()),
        MirPattern::Variable(n, s) => MirPattern::Variable(n.clone(), *s),
        MirPattern::Constructor { name, fields } => MirPattern::Constructor {
            name: name.clone(),
            fields: clone_positional_patterns(fields),
        },
        MirPattern::Record(fields, rest) => MirPattern::Record(clone_named_patterns(fields), *rest),
        MirPattern::Wildcard => MirPattern::Wildcard,
    }
}

fn clone_positional_patterns(v: &Vec<(Option<String>, MirPattern)>) -> (r: Vec<(Option<String>, MirPattern)>)
    ensures
        same_positional_patterns(v@, r@),
    decreases v, 0int,
{
    let mut r: Vec<(Option<String>, MirPattern)> = Vec::new();
    let mut i: usize = 0;
    while i < v.len()
        invariant
            i <= v@.len(),
            r@.len() == i,
            forall|j: int|
                0 <= j < i ==> same_opt_name((#[trigger] v@[j]).0, r@[j].0) && same_pattern(
                    v@[j].1,
                    r@[j].1,
                ),
        decreases v.len() - i,
    {
        proof {
            vstd::std_specs::vec::axiom_vec_index_decreases(*v, i as int);
        }
        let label = match &v[i].0 {
            Some(n) => Some(n.clone()),
            None => None,
        };
        r.push((label, clone_pattern(&v[i].1)));
        i = i + 1;
    }
    r
}

fn clone_named_patterns(v: &Vec<(String, MirPattern)>) -> (r: Vec<(String, MirPattern)>)
    ensures
        same_named_patterns(v@, r@),
    decreases v, 0int,
{
    let mut r: Vec<(String, MirPattern)> = Vec::new();
    let mut i: usize = 0;
    while i < v.len()
        invariant
            i <= v@.len(),
            r@.len() == i,
            forall|j: int|
                0 <= j < i ==> (#[trigger] v@[j]).0@ == r@[j].0@ && same_pattern(v@[j].1, r@[j].1),
        decreases v.len() - i,
    {
        proof {
            vstd::std_specs::vec::axiom_vec_index_decreases(*v, i as int);
        }
        r.push((v[i].0.clone(), clone_pattern(&v[i].1)));
        i = i + 1;
    }
    r
}

impl Clone for MirExpr {
    /// A copy of this expression.
    fn clone(&self) -> (r: Self)
        ensures
            same_expr(*self, r),
    {
        clone_expr(self)
    }
}

impl Clone for MirStmt {
    /// A copy of this statement.
    fn clone(&self) -> (r: Self)
        ensures
            same_stmt(*self, r),
    {
        clone_stmt(self)
    }
}

impl Clone for MirFunction {
    /// A copy of this function.
    fn clone(&self) -> (r: Self)
        ensures
            same_function(*self, r),
    {
        clone_function(self)
    }
}

impl Clone for MirMatchCase {
    /// A copy of this arm.
    fn clone(&self) -> (r: Self)
        ensures
            same_pattern(self.pattern, r.pattern),
            same_stmts(self.body@, r.body@),
    {
        MirMatchCase { pattern: clone_pattern(&self.pattern), body: clone_stmts(&self.body) }
    }
}

impl Clone for MirPattern {
    /// A copy of this pattern.
    fn clone(&self) -> (r: Self)
        ensures
            same_pattern(*self, r),
    {
        clone_pattern(self)
    }
}

} // verus!
