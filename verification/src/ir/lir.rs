//! Low-level IR: A-normal form, ready for WebAssembly code generation,
//! with evidence parameters for effect handlers.

use crate::ast::{float_bits_eq, float_bits_equal, BinaryOp, Type, TypeModel};
use vstd::std_specs::cmp::PartialEqSpecImpl;
use vstd::prelude::*;

verus! {

/// A whole program in low-level IR.
#[derive(Debug, Clone, PartialEq)]
pub struct LirProgram {
    pub functions: Vec<LirFunction>,
    pub externals: Vec<LirExternal>,
}

/// A function imported from a WebAssembly module.
#[derive(Debug, Clone, PartialEq)]
pub struct LirExternal {
    pub name: String,
    pub wasm_module: String,
    pub wasm_name: String,
    pub params: Vec<LirParam>,
    pub ret_type: Type,
    pub effects: Type,
}

/// A function definition; its body is a list of bindings and `ret` the
/// atom it returns.
#[derive(Debug, Clone, PartialEq)]
pub struct LirFunction {
    pub name: String,
    pub params: Vec<LirParam>,
    /// Evidence params (i32 base indices into funcref table)
    pub evidence_params: Vec<LirParam>,
    pub ret_type: Type,
    pub requires: Type,
    pub effects: Type,
    pub body: Vec<LirStmt>,
    pub ret: LirAtom,
}

/// A function parameter with its call-site label.
#[derive(Debug, Clone, PartialEq)]
pub struct LirParam {
    pub label: String,
    pub name: String,
    pub typ: Type,
}

/// A statement.
#[derive(Debug, PartialEq)]
#[allow(inconsistent_fields)]
pub enum LirStmt {
    Let { name: String, typ: Type, expr: LirExpr },
    If { cond: LirAtom, then_body: Vec<LirStmt>, else_body: Vec<LirStmt> },
    IfReturn {
        cond: LirAtom,
        then_body: Vec<LirStmt>,
        then_ret: LirAtom,
        else_body: Vec<LirStmt>,
        else_ret: Option<LirAtom>,
        ret_type: Type,
    },
    TryCatch {
        body: Vec<LirStmt>,
        body_ret: Option<LirAtom>,
        catch_param: String,
        catch_param_typ: Type,
        catch_body: Vec<LirStmt>,
        catch_ret: Option<LirAtom>,
    },
}

/// A simple (non-atomic) expression over atoms.
#[derive(Debug, PartialEq)]
#[allow(inconsistent_fields)]
pub enum LirExpr {
    Atom(LirAtom),
    Binary { op: BinaryOp, lhs: LirAtom, rhs: LirAtom, typ: Type },
    Call { func: String, args: Vec<(String, LirAtom)>, typ: Type },
    Constructor { name: String, args: Vec<LirAtom>, typ: Type },
    Record { fields: Vec<(String, LirAtom)>, typ: Type },
    ObjectTag { value: LirAtom, typ: Type },
    ObjectField { value: LirAtom, index: usize, typ: Type },
    Raise { value: LirAtom, typ: Type },
}

/// An atom: a typed variable or a constant. A float constant is kept as
/// the IEEE-754 bit pattern of its `f64` value.
#[derive(Debug)]
pub enum LirAtom {
    Var { name: String, typ: Type },
    Int(i64),
    Float(u64),
    Bool(bool),
    String(String),
    Unit,
}

broadcast use {
    vstd::std_specs::vec::axiom_vec_decreases_to_view,
    vstd::std_specs::vec::axiom_vec_index_decreases,
    vstd::seq::axiom_seq_index_decreases,
};

// Sameness of IR values: equal field by field, with strings, vectors and
// types compared by their contents.

/// `a` and `b` are the same atom.
pub open spec fn same_atom(a: LirAtom, b: LirAtom) -> bool {
    match (a, b) {
        (LirAtom::Var { name: n1, typ: t1 }, LirAtom::Var { name: n2, typ: t2 }) => n1@ == n2@
            && t1.model() == t2.model(),
        (LirAtom::Int(x), LirAtom::Int(y)) => x == y,
        (LirAtom::Float(x), LirAtom::Float(y)) => x == y,
        (LirAtom::Bool(x), LirAtom::Bool(y)) => x == y,
        (LirAtom::String(x), LirAtom::String(y)) => x@ == y@,
        (LirAtom::Unit, LirAtom::Unit) => true,
        _ => false,
    }
}

/// `a` and `b` are the same optional atom.
pub open spec fn same_opt_atom(a: Option<LirAtom>, b: Option<LirAtom>) -> bool {
    match (a, b) {
        (Some(x), Some(y)) => same_atom(x, y),
        (None, None) => true,
        _ => false,
    }
}

/// `a` and `b` are the same atoms, in order.
pub open spec fn same_atoms(a: Seq<LirAtom>, b: Seq<LirAtom>) -> bool {
    a.len() == b.len() && forall|i: int| 0 <= i < a.len() ==> same_atom(#[trigger] a[i], b[i])
}

/// `a` and `b` are the same labelled atoms, in order.
pub open spec fn same_labelled_atoms(a: Seq<(String, LirAtom)>, b: Seq<(String, LirAtom)>) -> bool {
    a.len() == b.len() && forall|i: int|
        0 <= i < a.len() ==> (#[trigger] a[i]).0@ == b[i].0@ && same_atom(a[i].1, b[i].1)
}

/// `a` and `b` are the same expression.
pub open spec fn same_expr(a: LirExpr, b: LirExpr) -> bool {
    match (a, b) {
        (LirExpr::Atom(x), LirExpr::Atom(y)) => same_atom(x, y),
        (
            LirExpr::Binary { op: o1, lhs: l1, rhs: r1, typ: t1 },
            LirExpr::Binary { op: o2, lhs: l2, rhs: r2, typ: t2 },
        ) => o1 == o2 && same_atom(l1, l2) && same_atom(r1, r2) && t1.model() == t2.model(),
        (
            LirExpr::Call { func: f1, args: a1, typ: t1 },
            LirExpr::Call { func: f2, args: a2, typ: t2 },
        ) => f1@ == f2@ && same_labelled_atoms(a1@, a2@) && t1.model() == t2.model(),
        (
            LirExpr::Constructor { name: n1, args: a1, typ: t1 },
            LirExpr::Constructor { name: n2, args: a2, typ: t2 },
        ) => n1@ == n2@ && same_atoms(a1@, a2@) && t1.model() == t2.model(),
        (LirExpr::Record { fields: f1, typ: t1 }, LirExpr::Record { fields: f2, typ: t2 }) =>
            same_labelled_atoms(f1@, f2@) && t1.model() == t2.model(),
        (LirExpr::ObjectTag { value: v1, typ: t1 }, LirExpr::ObjectTag { value: v2, typ: t2 }) =>
            same_atom(v1, v2) && t1.model() == t2.model(),
        (
            LirExpr::ObjectField { value: v1, index: i1, typ: t1 },
            LirExpr::ObjectField { value: v2, index: i2, typ: t2 },
        ) => same_atom(v1, v2) && i1 == i2 && t1.model() == t2.model(),
        (LirExpr::Raise { value: v1, typ: t1 }, LirExpr::Raise { value: v2, typ: t2 }) => same_atom(
            v1,
            v2,
        ) && t1.model() == t2.model(),
        _ => false,
    }
}

/// `a` and `b` are the same statement.
pub open spec fn same_stmt(a: LirStmt, b: LirStmt) -> bool
    decreases a, 0int,
{
    match (a, b) {
        (
            LirStmt::Let { name: n1, typ: t1, expr: x1 },
            LirStmt::Let { name: n2, typ: t2, expr: x2 },
        ) => n1@ == n2@ && t1.model() == t2.model() && same_expr(x1, x2),
        (
            LirStmt::If { cond: c1, then_body: t1, else_body: e1 },
            LirStmt::If { cond: c2, then_body: t2, else_body: e2 },
        ) => same_atom(c1, c2) && same_stmts(t1@, t2@) && same_stmts(e1@, e2@),
        (
            LirStmt::IfReturn {
                cond: c1,
                then_body: t1,
                then_ret: tr1,
                else_body: e1,
                else_ret: er1,
                ret_type: rt1,
            },
            LirStmt::IfReturn {
                cond: c2,
                then_body: t2,
                then_ret: tr2,
                else_body: e2,
                else_ret: er2,
                ret_type: rt2,
            },
        ) => same_atom(c1, c2) && same_stmts(t1@, t2@) && same_atom(tr1, tr2) && same_stmts(
            e1@,
            e2@,
        ) && same_opt_atom(er1, er2) && rt1.model() == rt2.model(),
        (
            LirStmt::TryCatch {
                body: b1,
                body_ret: br1,
                catch_param: p1,
                catch_param_typ: pt1,
                catch_body: c1,
                catch_ret: cr1,
            },
            LirStmt::TryCatch {
                body: b2,
                body_ret: br2,
                catch_param: p2,
                catch_param_typ: pt2,
                catch_body: c2,
                catch_ret: cr2,
            },
        ) => same_stmts(b1@, b2@) && same_opt_atom(br1, br2) && p1@ == p2@ && pt1.model()
            == pt2.model() && same_stmts(c1@, c2@) && same_opt_atom(cr1, cr2),
        _ => false,
    }
}

/// `a` and `b` are the same statements, in order.
pub open spec fn same_stmts(a: Seq<LirStmt>, b: Seq<LirStmt>) -> bool
    decreases a, 1int,
{
    a.len() == b.len() && forall|i: int| 0 <= i < a.len() ==> same_stmt(#[trigger] a[i], b[i])
}

/// What `==` on atoms means: the same kind and equal contents, floats
/// compared as `f64`.
pub open spec fn atom_eq(a: LirAtom, b: LirAtom) -> bool {
    match (a, b) {
        (LirAtom::Var { name: n1, typ: t1 }, LirAtom::Var { name: n2, typ: t2 }) => n1@ == n2@
            && t1.model() == t2.model(),
        (LirAtom::Int(x), LirAtom::Int(y)) => x == y,
        (LirAtom::Float(x), LirAtom::Float(y)) => float_bits_eq(x, y),
        (LirAtom::Bool(x), LirAtom::Bool(y)) => x == y,
        (LirAtom::String(x), LirAtom::String(y)) => x@ == y@,
        (LirAtom::Unit, LirAtom::Unit) => true,
        _ => false,
    }
}

impl PartialEq for LirAtom {
    fn eq(&self, other: &Self) -> (r: bool) {
        match (self, other) {
            (LirAtom::Var { name: n1, typ: t1 }, LirAtom::Var { name: n2, typ: t2 }) => *n1 == *n2
                && *t1 == *t2,
            (LirAtom::Int(x), LirAtom::Int(y)) => *x == *y,
            (LirAtom::Float(x), LirAtom::Float(y)) => float_bits_equal(*x, *y),
            (LirAtom::Bool(x), LirAtom::Bool(y)) => *x == *y,
            (LirAtom::String(x), LirAtom::String(y)) => *x == *y,
            (LirAtom::Unit, LirAtom::Unit) => true,
            _ => false,
        }
    }
}

impl PartialEqSpecImpl for LirAtom {
    open spec fn obeys_eq_spec() -> bool {
        true
    }

    open spec fn eq_spec(&self, other: &LirAtom) -> bool {
        atom_eq(*self, *other)
    }
}

impl Clone for LirAtom {
    /// A copy of this atom.
    fn clone(&self) -> (r: Self)
        ensures
            same_atom(*self, r),
    {
        match self {
            LirAtom::Var { name, typ } => LirAtom::Var { name: name.clone(), typ: typ.clone() },
            LirAtom::Int(x) => LirAtom::Int(*x),
            LirAtom::Float(x) => LirAtom::Float(*x),
            LirAtom::Bool(x) => LirAtom::Bool(*x),
            LirAtom::String(x) => LirAtom::String(x.clone()),
            LirAtom::Unit => LirAtom::Unit,
        }
    }
}

fn clone_atoms(v: &Vec<LirAtom>) -> (r: Vec<LirAtom>)
    ensures
        same_atoms(v@, r@),
{
    let mut r: Vec<LirAtom> = Vec::new();
    let mut i: usize = 0;
    while i < v.len()
        invariant
            i <= v@.len(),
            r@.len() == i,
            forall|j: int| 0 <= j < i ==> same_atom(#[trigger] v@[j], r@[j]),
        decreases v.len() - i,
    {
        r.push(v[i].clone());
        i = i + 1;
    }
    r
}

fn clone_labelled_atoms(v: &Vec<(String, LirAtom)>) -> (r: Vec<(String, LirAtom)>)
    ensures
        same_labelled_atoms(v@, r@),
{
    let mut r: Vec<(String, LirAtom)> = Vec::new();
    let mut i: usize = 0;
    while i < v.len()
        invariant
            i <= v@.len(),
            r@.len() == i,
            forall|j: int|
                0 <= j < i ==> (#[trigger] v@[j]).0@ == r@[j].0@ && same_atom(v@[j].1, r@[j].1),
        decreases v.len() - i,
    {
        r.push((v[i].0.clone(), v[i].1.clone()));
        i = i + 1;
    }
    r
}

impl Clone for LirExpr {
    /// A copy of this expression.
    fn clone(&self) -> (r: Self)
        ensures
            same_expr(*self, r),
    {
        match self {
            LirExpr::Atom(a) => LirExpr::Atom(a.clone()),
            LirExpr::Binary { op, lhs, rhs, typ } => LirExpr::Binary {
                op: *op,
                lhs: lhs.clone(),
                rhs: rhs.clone(),
                typ: typ.clone(),
            },
            LirExpr::Call { func, args, typ } => LirExpr::Call {
                func: func.clone(),
                args: clone_labelled_atoms(args),
                typ: typ.clone(),
            },
            LirExpr::Constructor { name, args, typ } => LirExpr::Constructor {
                name: name.clone(),
                args: clone_atoms(args),
                typ: typ.clone(),
            },
            LirExpr::Record { fields, typ } => LirExpr::Record {
                fields: clone_labelled_atoms(fields),
                typ: typ.clone(),
            },
            LirExpr::ObjectTag { value, typ } => LirExpr::ObjectTag {
                value: value.clone(),
                typ: typ.clone(),
            },
            LirExpr::ObjectField { value, index, typ } => LirExpr::ObjectField {
                value: value.clone(),
                index: *index,
                typ: typ.clone(),
            },
            LirExpr::Raise { value, typ } => LirExpr::Raise { value: value.clone(), typ: typ.clone() },
        }
    }
}

fn clone_opt_atom(a: &Option<LirAtom>) -> (r: Option<LirAtom>)
    ensures
        same_opt_atom(*a, r),
{
    match a {
        Some(x) => Some(x.clone()),
        None => None,
    }
}

fn clone_stmt(s: &LirStmt) -> (r: LirStmt)
    ensures
        same_stmt(*s, r),
    decreases s, 1int,
{
    match s {
        LirStmt::Let { name, typ, expr } => LirStmt::Let {
            name: name.clone(),
            typ: typ.clone(),
            expr: expr.clone(),
        },
        LirStmt::If { cond, then_body, else_body } => LirStmt::If {
            cond: cond.clone(),
            then_body: clone_stmts(then_body),
            else_body: clone_stmts(else_body),
        },
        LirStmt::IfReturn { cond, then_body, then_ret, else_body, else_ret, ret_type } => LirStmt::IfReturn {
            cond: cond.clone(),
            then_body: clone_stmts(then_body),
            then_ret: then_ret.clone(),
            else_body: clone_stmts(else_body),
            else_ret: clone_opt_atom(else_ret),
            ret_type: ret_type.clone(),
        },
        LirStmt::TryCatch { body, body_ret, catch_param, catch_param_typ, catch_body, catch_ret } => LirStmt::TryCatch {
            body: clone_stmts(body),
            body_ret: clone_opt_atom(body_ret),
            catch_param: catch_param.clone(),
            catch_param_typ: catch_param_typ.clone(),
            catch_body: clone_stmts(catch_body),
            catch_ret: clone_opt_atom(catch_ret),
        },
    }
}

fn clone_stmts(v: &Vec<LirStmt>) -> (r: Vec<LirStmt>)
    ensures
        same_stmts(v@, r@),
    decreases v, 0int,
{
    let mut r: Vec<LirStmt> = Vec::new();
    let mut i: usize = 0;
    while i < v.len()
        invariant
            i <= v@.len(),
            r@.len() == i,
            forall|j: int| 0 <= j < i ==> same_stmt(#[trigger] v@[j], r@[j]),
        decreases v.len() - i,
    {
        proof {
            vstd::std_specs::vec::axiom_vec_index_decreases(*v, i as int);
        }
        r.push(clone_stmt(&v[i]));
        i = i + 1;
    }
    r
}

impl Clone for LirStmt {
    /// A copy of this statement.
    fn clone(&self) -> (r: Self)
        ensures
            same_stmt(*self, r),
    {
        clone_stmt(self)
    }
}

impl LirAtom {
    /// The type of this atom: a variable's declared type, or the type of the
    /// constant's kind.
    pub open spec fn spec_typ(&self) -> TypeModel {
        match self {
            LirAtom::Var { typ, .. } => typ.model(),
            LirAtom::Int(_) => TypeModel::I64,
            LirAtom::Float(_) => TypeModel::F64,
            LirAtom::Bool(_) => TypeModel::Bool,
            LirAtom::String(_) => TypeModel::String,
            LirAtom::Unit => TypeModel::Unit,
        }
    }

    /// The type of this atom.
    pub fn typ(&self) -> (t: Type)
        ensures
            t.model() == self.spec_typ(),
    {
        match self {
            LirAtom::Var { typ, .. } => typ.clone(),
            LirAtom::Int(_) => Type::I64,
            LirAtom::Float(_) => Type::F64,
            LirAtom::Bool(_) => Type::Bool,
            LirAtom::String(_) => Type::String,
            LirAtom::Unit => Type::Unit,
        }
    }
}

/// Two atoms holding floats are equal exactly as `f64` values are: only
/// when they hold the same bits or both hold a zero (`0.0` equals `-0.0`),
/// never when one holds a NaN, and always when they hold the same bits of
/// a number.
pub proof fn lemma_float_atoms_equal_as_f64(a: u64, b: u64)
    ensures
        atom_eq(LirAtom::Float(a), LirAtom::Float(b)) ==> a == b || ((a & 0x7fff_ffff_ffff_ffffu64) == 0 && (b
            & 0x7fff_ffff_ffff_ffffu64) == 0),
        (a & 0x7fff_ffff_ffff_ffffu64) == 0 && (b & 0x7fff_ffff_ffff_ffffu64) == 0 ==> atom_eq(
            LirAtom::Float(a),
            LirAtom::Float(b),
        ),
        (a & 0x7ff0_0000_0000_0000u64) == 0x7ff0_0000_0000_0000u64 && (a & 0x000f_ffff_ffff_ffffu64)
            != 0 ==> !atom_eq(LirAtom::Float(a), LirAtom::Float(b)),
        !((a & 0x7ff0_0000_0000_0000u64) == 0x7ff0_0000_0000_0000u64 && (a
            & 0x000f_ffff_ffff_ffffu64) != 0) ==> atom_eq(LirAtom::Float(a), LirAtom::Float(a)),
{
    crate::ast::lemma_float_equality_is_bit_identity_up_to_zero_sign(a, b);
}

/// An atom's type depends only on its kind: a variable has the type it
/// carries, whatever its name, and each literal kind has its fixed type
/// (`i64`, `f64`, `bool`, `string`, `unit`) whatever its value.
pub proof fn lemma_atom_type_follows_kind(name: String, typ: Type, i: i64, bits: u64, b: bool, s: String)
    ensures
        (LirAtom::Var { name, typ }).spec_typ() == typ.model(),
        LirAtom::Int(i).spec_typ() == TypeModel::I64,
        LirAtom::Float(bits).spec_typ() == TypeModel::F64,
        LirAtom::Bool(b).spec_typ() == TypeModel::Bool,
        LirAtom::String(s).spec_typ() == TypeModel::String,
        LirAtom::Unit.spec_typ() == TypeModel::Unit,
{
}

} // verus!
