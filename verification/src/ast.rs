//! The source-level vocabulary that the intermediate representations carry:
//! types, literals, binding sigils and binary operators.

use vstd::prelude::*;
use vstd::std_specs::cmp::PartialEqSpecImpl;

verus! {

broadcast use {
    vstd::std_specs::vec::axiom_vec_decreases_to_view,
    vstd::std_specs::vec::axiom_vec_index_decreases,
    vstd::seq::axiom_seq_index_decreases,
    vstd::seq::axiom_seq_subrange_decreases,
};

/// A Nexus type.
#[derive(Debug)]
pub enum Type {
    I64,
    F64,
    Bool,
    String,
    Unit,
    /// A named type applied to type arguments (a type parameter has none).
    UserDefined(String, Vec<Type>),
    /// A function type: labelled parameters, return type, effect row.
    Arrow(Vec<(String, Type)>, Box<Type>, Box<Type>),
    /// A row of effects or ports, with an optional tail variable.
    Row(Vec<Type>, Option<Box<Type>>),
}

/// The mathematical value of a [`Type`]: the same tree with strings and
/// vectors taken by their contents.
pub enum TypeModel {
    I64,
    F64,
    Bool,
    String,
    Unit,
    UserDefined(Seq<char>, Seq<TypeModel>),
    Arrow(Seq<(Seq<char>, TypeModel)>, Box<TypeModel>, Box<TypeModel>),
    Row(Seq<TypeModel>, Option<Box<TypeModel>>),
}

impl Type {
    /// The model of this type.
    pub open spec fn model(&self) -> TypeModel
        decreases self, 0int,
    {
        match self {
            Type::I64 => TypeModel::I64,
            Type::F64 => TypeModel::F64,
            Type::Bool => TypeModel::Bool,
            Type::String => TypeModel::String,
            Type::Unit => TypeModel::Unit,
            Type::UserDefined(name, args) => TypeModel::UserDefined(name@, models_of(args@)),
            Type::Arrow(params, ret, effects) => TypeModel::Arrow(
                param_models_of(params@),
                Box::new(ret.model()),
                Box::new(effects.model()),
            ),
            Type::Row(items, tail) => TypeModel::Row(
                models_of(items@),
                match tail {
                    Some(t) => Some(Box::new(t.model())),
                    None => None,
                },
            ),
        }
    }
}

/// The models of a sequence of types, element by element.
pub open spec fn models_of(ts: Seq<Type>) -> Seq<TypeModel>
    decreases ts, 1int,
{
    if ts.len() == 0 {
        Seq::empty()
    } else {
        models_of(ts.drop_last()).push(ts.last().model())
    }
}

/// The models of a sequence of labelled types, element by element.
pub open spec fn param_models_of(ps: Seq<(String, Type)>) -> Seq<(Seq<char>, TypeModel)>
    decreases ps, 1int,
{
    if ps.len() == 0 {
        Seq::empty()
    } else {
        param_models_of(ps.drop_last()).push((ps.last().0@, ps.last().1.model()))
    }
}


/// A literal value as written in source. A float literal is kept as the
/// IEEE-754 bit pattern of its `f64` value.
#[derive(Debug)]
pub enum Literal {
    Int(i64),
    Float(u64),
    Bool(bool),
    String(String),
    Unit,
}

impl Clone for Literal {
    /// A copy of this literal.
    fn clone(&self) -> (r: Self)
        ensures
            r == *self,
    {
        match self {
            Literal::Int(i) => Literal::Int(*i),
            Literal::Float(bits) => Literal::Float(*bits),
            Literal::Bool(b) => Literal::Bool(*b),
            Literal::String(s) => Literal::String(s.clone()),
            Literal::Unit => Literal::Unit,
        }
    }
}

/// Whether the `f64` with bit pattern `bits` is a NaN: all exponent bits
/// set and a nonzero fraction.
pub open spec fn is_nan_bits(bits: u64) -> bool {
    (bits & 0x7ff0_0000_0000_0000u64) == 0x7ff0_0000_0000_0000u64 && (bits
        & 0x000f_ffff_ffff_ffffu64) != 0
}

/// Whether the `f64` values with bit patterns `a` and `b` are equal as
/// `f64` `==` says: no NaN equals anything, and `0.0` equals `-0.0`.
pub open spec fn float_bits_eq(a: u64, b: u64) -> bool {
    &&& !is_nan_bits(a)
    &&& !is_nan_bits(b)
    &&& (a == b || ((a & 0x7fff_ffff_ffff_ffffu64) == 0 && (b & 0x7fff_ffff_ffff_ffffu64) == 0))
}

/// `f64` equality on bit patterns.
pub fn float_bits_equal(a: u64, b: u64) -> (r: bool)
    ensures
        r == float_bits_eq(a, b),
{
    let a_nan = (a & 0x7ff0_0000_0000_0000u64) == 0x7ff0_0000_0000_0000u64 && (a
        & 0x000f_ffff_ffff_ffffu64) != 0;
    let b_nan = (b & 0x7ff0_0000_0000_0000u64) == 0x7ff0_0000_0000_0000u64 && (b
        & 0x000f_ffff_ffff_ffffu64) != 0;
    !a_nan && !b_nan && (a == b || ((a & 0x7fff_ffff_ffff_ffffu64) == 0 && (b
        & 0x7fff_ffff_ffff_ffffu64) == 0))
}

/// Float equality is the identity on bit patterns except that `0.0` equals
/// `-0.0`: two bit patterns are equal floats only when they are the same
/// pattern or both have every bit but the sign clear, and no NaN (every
/// exponent bit set, some mantissa bit set) equals anything, itself included.
pub proof fn lemma_float_equality_is_bit_identity_up_to_zero_sign(a: u64, b: u64)
    ensures
        float_bits_eq(a, b) ==> a == b || ((a & 0x7fff_ffff_ffff_ffffu64) == 0 && (b
            & 0x7fff_ffff_ffff_ffffu64) == 0),
        (a & 0x7ff0_0000_0000_0000u64) == 0x7ff0_0000_0000_0000u64 && (a
            & 0x000f_ffff_ffff_ffffu64) != 0 ==> !float_bits_eq(a, b) && !float_bits_eq(b, a),
        !((a & 0x7ff0_0000_0000_0000u64) == 0x7ff0_0000_0000_0000u64 && (a
            & 0x000f_ffff_ffff_ffffu64) != 0) ==> float_bits_eq(a, a),
        float_bits_eq(a, b) == float_bits_eq(b, a),
        (a & 0x7fff_ffff_ffff_ffffu64) == 0 && (b & 0x7fff_ffff_ffff_ffffu64) == 0 ==> float_bits_eq(
            a,
            b,
        ),
{
    assert((a & 0x7fff_ffff_ffff_ffffu64) == 0 ==> (a & 0x7ff0_0000_0000_0000u64) == 0) by (bit_vector);
    assert((b & 0x7fff_ffff_ffff_ffffu64) == 0 ==> (b & 0x7ff0_0000_0000_0000u64) == 0) by (bit_vector);
}

/// A float and its negation (the same bits with the sign bit flipped) are
/// equal only when the float is a zero: `x == -x` fails for every non-zero
/// `x`, and `0.0 == -0.0` holds.
pub proof fn lemma_float_differs_from_its_negation(a: u64)
    ensures
        float_bits_eq(a, a ^ 0x8000_0000_0000_0000u64) <==> (a & 0x7fff_ffff_ffff_ffffu64) == 0,
{
    let n = a ^ 0x8000_0000_0000_0000u64;
    assert(n != a) by (bit_vector)
        requires
            n == a ^ 0x8000_0000_0000_0000u64,
    ;
    assert((n & 0x7fff_ffff_ffff_ffffu64) == (a & 0x7fff_ffff_ffff_ffffu64)) by (bit_vector)
        requires
            n == a ^ 0x8000_0000_0000_0000u64,
    ;
    assert((n & 0x7ff0_0000_0000_0000u64) == (a & 0x7ff0_0000_0000_0000u64)) by (bit_vector)
        requires
            n == a ^ 0x8000_0000_0000_0000u64,
    ;
    assert((n & 0x000f_ffff_ffff_ffffu64) == (a & 0x000f_ffff_ffff_ffffu64)) by (bit_vector)
        requires
            n == a ^ 0x8000_0000_0000_0000u64,
    ;
    assert((a & 0x7fff_ffff_ffff_ffffu64) == 0 ==> !((a & 0x7ff0_0000_0000_0000u64)
        == 0x7ff0_0000_0000_0000u64)) by (bit_vector);
}

/// What `==` on literals means: the same kind and equal contents, floats
/// compared as `f64`.
pub open spec fn literal_eq(a: Literal, b: Literal) -> bool {
    match (a, b) {
        (Literal::Int(x), Literal::Int(y)) => x == y,
        (Literal::Float(x), Literal::Float(y)) => float_bits_eq(x, y),
        (Literal::Bool(x), Literal::Bool(y)) => x == y,
        (Literal::String(x), Literal::String(y)) => x@ == y@,
        (Literal::Unit, Literal::Unit) => true,
        _ => false,
    }
}

impl PartialEq for Literal {
    fn eq(&self, other: &Self) -> (r: bool) {
        match (self, other) {
            (Literal::Int(x), Literal::Int(y)) => *x == *y,
            (Literal::Float(x), Literal::Float(y)) => float_bits_equal(*x, *y),
            (Literal::Bool(x), Literal::Bool(y)) => *x == *y,
            (Literal::String(x), Literal::String(y)) => *x == *y,
            (Literal::Unit, Literal::Unit) => true,
            _ => false,
        }
    }
}

impl PartialEqSpecImpl for Literal {
    open spec fn obeys_eq_spec() -> bool {
        true
    }

    open spec fn eq_spec(&self, other: &Literal) -> bool {
        literal_eq(*self, *other)
    }
}

/// How a binding may be used: `x` immutable, `~x` mutable, `%x` linear.
#[derive(Debug, Clone, Copy, PartialEq, Eq)]
pub enum Sigil {
    Immutable,
    Mutable,
    Linear,
}

impl Sigil {
    /// The characters this sigil puts in front of a binding's name.
    pub open spec fn marker(self) -> Seq<char> {
        match self {
            Sigil::Immutable => Seq::empty(),
            Sigil::Mutable => seq!['~'],
            Sigil::Linear => seq!['%'],
        }
    }

    /// The name under which a binding with this sigil is known: the sigil's
    /// marker followed by the bare name.
    pub fn get_key(&self, name: &str) -> (key: String)
        ensures
            key@ == self.marker() + name@,
    {
        let mut key = match self {
            Sigil::Immutable => String::new(),
            Sigil::Mutable => String::from_str("~"),
            Sigil::Linear => String::from_str("%"),
        };
        proof {
            reveal_strlit("~");
            reveal_strlit("%");
        }
        key.append(name);
        key
    }
}

/// A binding's key is its bare name for an immutable binding, `~` and the
/// name for a mutable one, and `%` and the name for a linear one; so, for
/// names that do not themselves start with `~` or `%`, different sigils or
/// different names give different keys.
pub proof fn lemma_sigil_keys_are_distinct(s1: Sigil, n1: Seq<char>, s2: Sigil, n2: Seq<char>)
    requires
        n1.len() == 0 || (n1[0] != '~' && n1[0] != '%'),
        n2.len() == 0 || (n2[0] != '~' && n2[0] != '%'),
    ensures
        Sigil::Immutable.marker() + n1 == n1,
        Sigil::Mutable.marker() + n1 == seq!['~'] + n1,
        Sigil::Linear.marker() + n1 == seq!['%'] + n1,
        s1.marker() + n1 == s2.marker() + n2 ==> s1 == s2 && n1 == n2,
{
    assert(Sigil::Immutable.marker() + n1 =~= n1);
    let k1 = s1.marker() + n1;
    let k2 = s2.marker() + n2;
    if k1 == k2 {
        if s1 != s2 {
            if s1 == Sigil::Immutable {
                assert(k1 =~= n1);
                assert(k1[0] == k2[0]);
            } else if s2 == Sigil::Immutable {
                assert(k2 =~= n2);
                assert(k1[0] == k2[0]);
            } else {
                assert(k1[0] == k2[0]);
            }
        }
        assert(n1 =~= k1.skip(s1.marker().len() as int));
        assert(n2 =~= k2.skip(s2.marker().len() as int));
    }
}

/// A binary operator.
#[derive(Debug, Clone, Copy, PartialEq, Eq)]
pub enum BinaryOp {
    Add,
    Sub,
    Mul,
    Div,
    FAdd,
    FSub,
    FMul,
    FDiv,
    Concat,
    Eq,
    Ne,
    Lt,
    Le,
    Gt,
    Ge,
    And,
    Or,
}

/// `models_of` takes one model per element, in order.
pub proof fn lemma_models_of_index(ts: Seq<Type>)
    ensures
        models_of(ts).len() == ts.len(),
        forall|j: int| 0 <= j < ts.len() ==> #[trigger] models_of(ts)[j] == ts[j].model(),
    decreases ts.len(),
{
    if ts.len() > 0 {
        lemma_models_of_index(ts.drop_last());
    }
}

/// `param_models_of` takes one labelled model per element, in order.
pub proof fn lemma_param_models_of_index(ps: Seq<(String, Type)>)
    ensures
        param_models_of(ps).len() == ps.len(),
        forall|j: int|
            0 <= j < ps.len() ==> #[trigger] param_models_of(ps)[j] == (ps[j].0@, ps[j].1.model()),
    decreases ps.len(),
{
    if ps.len() > 0 {
        lemma_param_models_of_index(ps.drop_last());
    }
}

/// Two sequences of types with equal models element by element have equal models.
proof fn lemma_models_of_ext(a: Seq<Type>, b: Seq<Type>)
    requires
        a.len() == b.len(),
        forall|j: int| 0 <= j < a.len() ==> #[trigger] a[j].model() == b[j].model(),
    ensures
        models_of(a) == models_of(b),
{
    lemma_models_of_index(a);
    lemma_models_of_index(b);
    assert(models_of(a) =~= models_of(b));
}

/// Two sequences of labelled types with equal labels and models have equal models.
proof fn lemma_param_models_of_ext(a: Seq<(String, Type)>, b: Seq<(String, Type)>)
    requires
        a.len() == b.len(),
        forall|j: int|
            0 <= j < a.len() ==> #[trigger] a[j].0@ == b[j].0@ && a[j].1.model() == b[j].1.model(),
    ensures
        param_models_of(a) == param_models_of(b),
{
    lemma_param_models_of_index(a);
    lemma_param_models_of_index(b);
    assert(param_models_of(a) =~= param_models_of(b));
}

fn clone_type(t: &Type) -> (r: Type)
    ensures
        r.model() == t.model(),
    decreases t, 1int,
{
    match t {
        Type::I64 => Type::I64,
        Type::F64 => Type::F64,
        Type::Bool => Type::Bool,
        Type::String => Type::String,
        Type::Unit => Type::Unit,
        Type::UserDefined(name, args) => Type::UserDefined(name.clone(), clone_types(args)),
        Type::Arrow(params, ret, effects) => {
            let ps = clone_params(params);
            let r = clone_type(ret);
            let e = clone_type(effects);
            Type::Arrow(ps, Box::new(r), Box::new(e))
        },
        Type::Row(items, tail) => {
            let its = clone_types(items);
            let tl = match tail {
                Some(b) => Some(Box::new(clone_type(b))),
                None => None,
            };
            Type::Row(its, tl)
        },
    }
}

fn clone_types(ts: &Vec<Type>) -> (r: Vec<Type>)
    ensures
        models_of(r@) == models_of(ts@),
    decreases ts, 0int,
{
    let mut r: Vec<Type> = Vec::new();
    let mut i: usize = 0;
    while i < ts.len()
        invariant
            i <= ts.len(),
            r@.len() == i,
            forall|j: int| 0 <= j < i ==> #[trigger] r@[j].model() == ts@[j].model(),
        decreases ts.len() - i,
    {
        proof {
            vstd::std_specs::vec::axiom_vec_index_decreases(*ts, i as int);
        }
        let c = clone_type(&ts[i]);
        r.push(c);
        i = i + 1;
    }
    proof {
        lemma_models_of_ext(r@, ts@);
    }
    r
}

fn clone_params(ps: &Vec<(String, Type)>) -> (r: Vec<(String, Type)>)
    ensures
        param_models_of(r@) == param_models_of(ps@),
    decreases ps, 0int,
{
    let mut r: Vec<(String, Type)> = Vec::new();
    let mut i: usize = 0;
    while i < ps.len()
        invariant
            i <= ps.len(),
            r@.len() == i,
            forall|j: int|
                0 <= j < i ==> #[trigger] r@[j].0@ == ps@[j].0@ && r@[j].1.model() == ps@[j].1.model(),
        decreases ps.len() - i,
    {
        proof {
            vstd::std_specs::vec::axiom_vec_index_decreases(*ps, i as int);
        }
        let label = ps[i].0.clone();
        let t = clone_type(&ps[i].1);
        r.push((label, t));
        i = i + 1;
    }
    proof {
        lemma_param_models_of_ext(r@, ps@);
    }
    r
}

proof fn lemma_models_of_equal(a: Seq<Type>, b: Seq<Type>, j: int)
    requires
        models_of(a) == models_of(b),
        0 <= j < a.len(),
    ensures
        a.len() == b.len(),
        a[j].model() == b[j].model(),
{
    lemma_models_of_index(a);
    lemma_models_of_index(b);
    assert(models_of(a).len() == a.len());
    assert(models_of(b).len() == b.len());
    assert(models_of(a)[j] == a[j].model());
    assert(models_of(b)[j] == b[j].model());
}

proof fn lemma_param_models_of_equal(a: Seq<(String, Type)>, b: Seq<(String, Type)>, j: int)
    requires
        param_models_of(a) == param_models_of(b),
        0 <= j < a.len(),
    ensures
        a.len() == b.len(),
        a[j].0@ == b[j].0@,
        a[j].1.model() == b[j].1.model(),
{
    lemma_param_models_of_index(a);
    lemma_param_models_of_index(b);
    assert(param_models_of(a)[j] == param_models_of(b)[j]);
}

fn type_equal(a: &Type, b: &Type) -> (r: bool)
    ensures
        r == (a.model() == b.model()),
    decreases a, 1int,
{
    match (a, b) {
        (Type::I64, Type::I64) => true,
        (Type::F64, Type::F64) => true,
        (Type::Bool, Type::Bool) => true,
        (Type::String, Type::String) => true,
        (Type::Unit, Type::Unit) => true,
        (Type::UserDefined(n1, a1), Type::UserDefined(n2, a2)) => *n1 == *n2 && types_equal(a1, a2),
        (Type::Arrow(p1, r1, e1), Type::Arrow(p2, r2, e2)) => params_equal(p1, p2) && type_equal(
            r1,
            r2,
        ) && type_equal(e1, e2),
        (Type::Row(i1, t1), Type::Row(i2, t2)) => {
            let items = types_equal(i1, i2);
            let tails = match (t1, t2) {
                (Some(x), Some(y)) => type_equal(x, y),
                (None, None) => true,
                _ => false,
            };
            items && tails
        },
        _ => false,
    }
}

fn types_equal(a: &Vec<Type>, b: &Vec<Type>) -> (r: bool)
    ensures
        r == (models_of(a@) == models_of(b@)),
    decreases a, 0int,
{
    proof {
        lemma_models_of_index(a@);
        lemma_models_of_index(b@);
    }
    if a.len() != b.len() {
        return false;
    }
    let mut i: usize = 0;
    while i < a.len()
        invariant
            i <= a@.len(),
            a@.len() == b@.len(),
            forall|j: int| 0 <= j < i ==> #[trigger] a@[j].model() == b@[j].model(),
        decreases a.len() - i,
    {
        proof {
            vstd::std_specs::vec::axiom_vec_index_decreases(*a, i as int);
        }
        if !type_equal(&a[i], &b[i]) {
            proof {
                if models_of(a@) == models_of(b@) {
                    lemma_models_of_equal(a@, b@, i as int);
                }
            }
            return false;
        }
        i = i + 1;
    }
    proof {
        lemma_models_of_ext(a@, b@);
    }
    true
}

fn params_equal(a: &Vec<(String, Type)>, b: &Vec<(String, Type)>) -> (r: bool)
    ensures
        r == (param_models_of(a@) == param_models_of(b@)),
    decreases a, 0int,
{
    proof {
        lemma_param_models_of_index(a@);
        lemma_param_models_of_index(b@);
    }
    if a.len() != b.len() {
        return false;
    }
    let mut i: usize = 0;
    while i < a.len()
        invariant
            i <= a@.len(),
            a@.len() == b@.len(),
            forall|j: int|
                #![trigger a@[j]]
                0 <= j < i ==> a@[j].0@ == b@[j].0@ && a@[j].1.model() == b@[j].1.model(),
        decreases a.len() - i,
    {
        proof {
            vstd::std_specs::vec::axiom_vec_index_decreases(*a, i as int);
        }
        let same_label = a[i].0 == b[i].0;
        let same_type = if same_label {
            type_equal(&a[i].1, &b[i].1)
        } else {
            false
        };
        if !same_type {
            proof {
                if param_models_of(a@) == param_models_of(b@) {
                    lemma_param_models_of_equal(a@, b@, i as int);
                }
            }
            return false;
        }
        assert(a@[i as int].0@ == b@[i as int].0@ && a@[i as int].1.model() == b@[i as int].1.model());
        i = i + 1;
    }
    proof {
        lemma_param_models_of_ext(a@, b@);
    }
    true
}

impl PartialEq for Type {
    fn eq(&self, other: &Self) -> (r: bool) {
        type_equal(self, other)
    }
}

impl PartialEqSpecImpl for Type {
    open spec fn obeys_eq_spec() -> bool {
        true
    }

    open spec fn eq_spec(&self, other: &Type) -> bool {
        self.model() == other.model()
    }
}

impl Clone for Type {
    /// A copy of this type; the copy has the same model.
    fn clone(&self) -> (r: Self)
        ensures
            r.model() == self.model(),
    {
        clone_type(self)
    }
}

/// Two literals holding floats are equal exactly as `f64` values are: only
/// when they hold the same bits or both hold a zero (`0.0` equals `-0.0`),
/// never when one holds a NaN, and always when they hold the same bits of
/// a number.
pub proof fn lemma_float_literals_equal_as_f64(a: u64, b: u64)
    ensures
        literal_eq(Literal::Float(a), Literal::Float(b)) ==> a == b || ((a & 0x7fff_ffff_ffff_ffffu64) == 0 && (b
            & 0x7fff_ffff_ffff_ffffu64) == 0),
        (a & 0x7fff_ffff_ffff_ffffu64) == 0 && (b & 0x7fff_ffff_ffff_ffffu64) == 0 ==> literal_eq(
            Literal::Float(a),
            Literal::Float(b),
        ),
        (a & 0x7ff0_0000_0000_0000u64) == 0x7ff0_0000_0000_0000u64 && (a & 0x000f_ffff_ffff_ffffu64)
            != 0 ==> !literal_eq(Literal::Float(a), Literal::Float(b)),
        !((a & 0x7ff0_0000_0000_0000u64) == 0x7ff0_0000_0000_0000u64 && (a
            & 0x000f_ffff_ffff_ffffu64) != 0) ==> literal_eq(Literal::Float(a), Literal::Float(a)),
{
    lemma_float_equality_is_bit_identity_up_to_zero_sign(a, b);
}

} // verus!
