use nexus::ast::{BinaryOp, Literal, Sigil, Type};
use nexus::ir::hir::{HirExpr, HirMatchCase, HirPattern, HirStmt};
use nexus::ir::lir::{LirAtom, LirExpr, LirStmt};
use nexus::ir::mir::{EvidenceTable, MirExpr, MirStmt};

fn user(name: &str, args: Vec<Type>) -> Type {
    Type::UserDefined(name.to_string(), args)
}

#[test]
fn evidence_table_starts_empty() {
    let t = EvidenceTable::new();
    assert!(t.entries.is_empty());
}

#[test]
fn lir_atom_types_follow_their_kind() {
    assert_eq!(LirAtom::Int(3).typ(), Type::I64);
    assert_eq!(LirAtom::Float(1.5f64.to_bits()).typ(), Type::F64);
    assert_eq!(LirAtom::Bool(false).typ(), Type::Bool);
    assert_eq!(LirAtom::String("s".to_string()).typ(), Type::String);
    assert_eq!(LirAtom::Unit.typ(), Type::Unit);
    let declared = Type::Row(vec![user("Console", vec![])], Some(Box::new(user("E", vec![]))));
    let var = LirAtom::Var { name: "x".to_string(), typ: declared.clone() };
    assert_eq!(var.typ(), declared);
}

#[test]
fn type_clone_is_equal() {
    let t = Type::Arrow(
        vec![("x".to_string(), user("List", vec![Type::I64]))],
        Box::new(Type::Bool),
        Box::new(Type::Row(vec![], None)),
    );
    assert_eq!(t.clone(), t);
}

#[test]
fn sigil_keys_carry_their_marker() {
    assert_eq!(Sigil::Immutable.get_key("x"), "x");
    assert_eq!(Sigil::Mutable.get_key("x"), "~x");
    assert_eq!(Sigil::Linear.get_key("x"), "%x");
}

#[test]
fn nested_ir_clones_keep_their_shape() {
    let stmt = LirStmt::If {
        cond: LirAtom::Bool(true),
        then_body: vec![LirStmt::Let {
            name: "a".to_string(),
            typ: Type::I64,
            expr: LirExpr::Binary {
                op: BinaryOp::Add,
                lhs: LirAtom::Int(1),
                rhs: LirAtom::Int(2),
                typ: Type::I64,
            },
        }],
        else_body: vec![],
    };
    assert_eq!(stmt.clone(), stmt);

    let hir = HirExpr::Match {
        target: Box::new(HirExpr::Literal(Literal::Int(1))),
        cases: vec![HirMatchCase {
            pattern: HirPattern::Record(vec![("f".to_string(), HirPattern::Wildcard)], true),
            body: vec![HirStmt::Return(HirExpr::Variable("v".to_string(), Sigil::Mutable))],
        }],
    };
    let copy = hir.clone();
    assert_eq!(format!("{:?}", copy), format!("{:?}", hir));

    let mir = MirStmt::Expr(MirExpr::Call {
        func: "f".to_string(),
        args: vec![("x".to_string(), MirExpr::Literal(Literal::Bool(true)))],
        evidence_args: vec![MirExpr::Variable("__ev_Logger".to_string())],
        ret_type: Type::Unit,
    });
    assert_eq!(format!("{:?}", mir.clone()), format!("{:?}", mir));
}

#[test]
fn atom_and_expression_clones_are_equal() {
    let e = LirExpr::Call {
        func: "f".to_string(),
        args: vec![("x".to_string(), LirAtom::Var { name: "v".to_string(), typ: Type::Bool })],
        typ: Type::Unit,
    };
    assert_eq!(e.clone(), e);
    let a = LirAtom::String("s".to_string());
    assert_eq!(a.clone(), a);
    let l = Literal::String("t".to_string());
    assert_eq!(l.clone(), l);
}

#[test]
fn float_atoms_compare_as_f64() {
    let nan = LirAtom::Float(f64::NAN.to_bits());
    assert_ne!(nan, LirAtom::Float(f64::NAN.to_bits()));
    assert_eq!(LirAtom::Float(0.0f64.to_bits()), LirAtom::Float((-0.0f64).to_bits()));
    assert_eq!(LirAtom::Float(1.5f64.to_bits()), LirAtom::Float(1.5f64.to_bits()));
    assert_ne!(LirAtom::Float(1.5f64.to_bits()), LirAtom::Float(2.5f64.to_bits()));
    assert_ne!(LirAtom::Float(1.0f64.to_bits()), LirAtom::Int(1));
    assert_eq!(LirAtom::Float(f64::INFINITY.to_bits()), LirAtom::Float(f64::INFINITY.to_bits()));
}

#[test]
fn float_literals_compare_as_f64() {
    assert_ne!(Literal::Float(f64::NAN.to_bits()), Literal::Float(f64::NAN.to_bits()));
    assert_eq!(Literal::Float(0.0f64.to_bits()), Literal::Float((-0.0f64).to_bits()));
    assert_ne!(Literal::Float(0.5f64.to_bits()), Literal::Float(0.25f64.to_bits()));
}

#[test]
fn types_compare_by_structure() {
    assert_eq!(user("List", vec![Type::I64]), user("List", vec![Type::I64]));
    assert_ne!(user("List", vec![Type::I64]), user("List", vec![Type::Bool]));
    assert_ne!(Type::I64, Type::Bool);
}
