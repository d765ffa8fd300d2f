use nexus::interpreter::stdlib::{bool_to_string, handle_call, int_to_string, NativeStep};
use nexus::interpreter::Value;

fn s(t: &str) -> Value {
    Value::String(t.to_string())
}

#[test]
fn print_asks_to_write_its_string() {
    assert_eq!(
        handle_call("print", &[s("hello")]),
        Some(Ok(NativeStep::Print("hello".to_string())))
    );
}

#[test]
fn print_checks_arity_and_type() {
    assert_eq!(
        handle_call("print", &[]),
        Some(Err("print requires exactly 1 argument".to_string()))
    );
    assert_eq!(
        handle_call("print", &[Value::Int(1)]),
        Some(Err("print requires a string".to_string()))
    );
}

#[test]
fn conversions_to_string() {
    assert_eq!(
        handle_call("int_to_string", &[Value::Int(-120)]),
        Some(Ok(NativeStep::Finished(s("-120"))))
    );
    assert_eq!(
        handle_call("bool_to_string", &[Value::Bool(true)]),
        Some(Ok(NativeStep::Finished(s("true"))))
    );
    let bits = 2.5f64.to_bits();
    assert_eq!(
        handle_call("float_to_string", &[Value::Float(bits)]),
        Some(Ok(NativeStep::FormatFloat(bits)))
    );
}

#[test]
fn conversion_errors() {
    assert_eq!(
        handle_call("int_to_string", &[s("1")]),
        Some(Err("Expected int".to_string()))
    );
    assert_eq!(
        handle_call("float_to_string", &[Value::Int(1)]),
        Some(Err("Expected float".to_string()))
    );
    assert_eq!(
        handle_call("bool_to_string", &[Value::Unit]),
        Some(Err("Expected bool".to_string()))
    );
    assert_eq!(
        handle_call("int_to_string", &[Value::Int(1), Value::Int(2)]),
        Some(Err("int_to_string requires 1 arg".to_string()))
    );
    assert_eq!(
        handle_call("float_to_string", &[]),
        Some(Err("float_to_string requires 1 arg".to_string()))
    );
    assert_eq!(
        handle_call("bool_to_string", &[]),
        Some(Err("bool_to_string requires 1 arg".to_string()))
    );
}

#[test]
fn drops_return_unit_and_check_arity() {
    assert_eq!(
        handle_call("drop_i64", &[Value::Int(4)]),
        Some(Ok(NativeStep::Finished(Value::Unit)))
    );
    assert_eq!(
        handle_call("drop_array", &[Value::Unit]),
        Some(Ok(NativeStep::Finished(Value::Unit)))
    );
    assert_eq!(
        handle_call("drop_i64", &[]),
        Some(Err("drop_i64 requires exactly 1 argument".to_string()))
    );
    assert_eq!(
        handle_call("drop_array", &[Value::Unit, Value::Unit]),
        Some(Err("drop_array requires exactly 1 argument".to_string()))
    );
}

#[test]
fn unknown_function_is_not_handled() {
    assert_eq!(handle_call("i64_to_string", &[Value::Int(1)]), None);
    assert_eq!(handle_call("", &[]), None);
}

#[test]
fn int_to_string_matches_display() {
    for i in [0i64, 7, 10, -1, -42, 1234567890, i64::MAX, i64::MIN] {
        assert_eq!(int_to_string(i), i.to_string());
    }
}

#[test]
fn bool_to_string_matches_display() {
    assert_eq!(bool_to_string(true), "true");
    assert_eq!(bool_to_string(false), "false");
}

#[test]
fn float_values_compare_as_f64() {
    assert_ne!(Value::Float(f64::NAN.to_bits()), Value::Float(f64::NAN.to_bits()));
    assert_eq!(Value::Float(0.0f64.to_bits()), Value::Float((-0.0f64).to_bits()));
    assert_ne!(Value::Float(3.0f64.to_bits()), Value::Int(3));
    assert_eq!(Value::Int(3), Value::Int(3));
}
