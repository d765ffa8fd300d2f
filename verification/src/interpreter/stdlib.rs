//! The interpreter's built-in functions (`print`, the conversions to
//! strings, and the explicit drops of linear values).
//!
//! Deciding what a call does is done here; writing to standard output and
//! formatting a float in decimal are left to the caller, as the step
//! returned says.

use crate::interpreter::{Value, ValueModel, value_models};
use crate::text::{push_char, same_text};
use vstd::prelude::*;

verus! {

/// What a built-in call asks its caller to do.
#[derive(Debug, Clone, PartialEq)]
pub enum NativeStep {
    /// The call is over; it evaluates to this value.
    Finished(Value),
    /// Write this text and a line break to standard output; the call then
    /// evaluates to `Unit`.
    Print(String),
    /// Format the `f64` with these bits as Rust's `Display` does; the call
    /// then evaluates to that string.
    FormatFloat(u64),
}

/// The mathematical value of a [`NativeStep`].
pub enum StepModel {
    Finished(ValueModel),
    Print(Seq<char>),
    FormatFloat(u64),
}

impl NativeStep {
    /// The model of this step.
    pub open spec fn model(&self) -> StepModel {
        match self {
            NativeStep::Finished(v) => StepModel::Finished(v.model()),
            NativeStep::Print(s) => StepModel::Print(s@),
            NativeStep::FormatFloat(bits) => StepModel::FormatFloat(*bits),
        }
    }
}

/// The decimal digit character for `d` (0 to 9).
pub open spec fn digit_char(d: int) -> char {
    if d == 0 {
        '0'
    } else if d == 1 {
        '1'
    } else if d == 2 {
        '2'
    } else if d == 3 {
        '3'
    } else if d == 4 {
        '4'
    } else if d == 5 {
        '5'
    } else if d == 6 {
        '6'
    } else if d == 7 {
        '7'
    } else if d == 8 {
        '8'
    } else {
        '9'
    }
}

/// The decimal digits of `n`, most significant first, without leading zeros.
pub open spec fn decimal_digits(n: nat) -> Seq<char>
    decreases n,
{
    if n < 10 {
        seq![digit_char(n as int)]
    } else {
        decimal_digits(n / 10).push(digit_char((n % 10) as int))
    }
}

/// The decimal numeral of `i`, with a leading `-` when it is negative
/// (the text that Rust's `Display` writes for an integer).
pub open spec fn decimal_text(i: int) -> Seq<char> {
    if i < 0 {
        seq!['-'] + decimal_digits((-i) as nat)
    } else {
        decimal_digits(i as nat)
    }
}

/// The text of a boolean: `true` or `false`.
pub open spec fn bool_text(b: bool) -> Seq<char> {
    if b {
        "true"@
    } else {
        "false"@
    }
}

/// What calling the built-in `func` with `args` does: `None` when `func` is
/// not a built-in, an error message when the arguments do not fit.
pub open spec fn native_call(func: Seq<char>, args: Seq<ValueModel>) -> Option<
    Result<StepModel, Seq<char>>,
> {
    if func == "print"@ {
        Some(
            if args.len() != 1 {
                Err("print requires exactly 1 argument"@)
            } else {
                match args[0] {
                    ValueModel::String(s) => Ok(StepModel::Print(s)),
                    _ => Err("print requires a string"@),
                }
            },
        )
    } else if func == "int_to_string"@ {
        Some(
            if args.len() != 1 {
                Err("int_to_string requires 1 arg"@)
            } else {
                match args[0] {
                    ValueModel::Int(i) => Ok(
                        StepModel::Finished(ValueModel::String(decimal_text(i as int))),
                    ),
                    _ => Err("Expected int"@),
                }
            },
        )
    } else if func == "float_to_string"@ {
        Some(
            if args.len() != 1 {
                Err("float_to_string requires 1 arg"@)
            } else {
                match args[0] {
                    ValueModel::Float(bits) => Ok(StepModel::FormatFloat(bits)),
                    _ => Err("Expected float"@),
                }
            },
        )
    } else if func == "bool_to_string"@ {
        Some(
            if args.len() != 1 {
                Err("bool_to_string requires 1 arg"@)
            } else {
                match args[0] {
                    ValueModel::Bool(b) => Ok(
                        StepModel::Finished(ValueModel::String(bool_text(b))),
                    ),
                    _ => Err("Expected bool"@),
                }
            },
        )
    } else if func == "drop_i64"@ {
        Some(
            if args.len() != 1 {
                Err("drop_i64 requires exactly 1 argument"@)
            } else {
                Ok(StepModel::Finished(ValueModel::Unit))
            },
        )
    } else if func == "drop_array"@ {
        Some(
            if args.len() != 1 {
                Err("drop_array requires exactly 1 argument"@)
            } else {
                Ok(StepModel::Finished(ValueModel::Unit))
            },
        )
    } else {
        None
    }
}

/// The model of what [`handle_call`] returns.
pub open spec fn call_outcome_model(r: Option<Result<NativeStep, String>>) -> Option<
    Result<StepModel, Seq<char>>,
> {
    match r {
        Some(Ok(step)) => Some(Ok(step.model())),
        Some(Err(e)) => Some(Err(e@)),
        None => None,
    }
}

fn digit(d: u64) -> (c: char)
    requires
        d < 10,
    ensures
        c == digit_char(d as int),
{
    if d == 0 {
        '0'
    } else if d == 1 {
        '1'
    } else if d == 2 {
        '2'
    } else if d == 3 {
        '3'
    } else if d == 4 {
        '4'
    } else if d == 5 {
        '5'
    } else if d == 6 {
        '6'
    } else if d == 7 {
        '7'
    } else if d == 8 {
        '8'
    } else {
        '9'
    }
}

fn push_decimal(s: &mut String, n: u64)
    ensures
        final(s)@ == old(s)@ + decimal_digits(n as nat),
    decreases n,
{
    if n >= 10 {
        push_decimal(s, n / 10);
    }
    push_char(s, digit(n % 10));
    proof {
        if n >= 10 {
            assert(old(s)@ + decimal_digits(n as nat) =~= (old(s)@ + decimal_digits(
                (n / 10) as nat,
            )).push(digit_char((n % 10) as int)));
        } else {
            assert(old(s)@ + decimal_digits(n as nat) =~= old(s)@.push(digit_char(n as int)));
        }
    }
}

/// The decimal numeral of `i` (`i.to_string()`).
pub fn int_to_string(i: i64) -> (s: String)
    ensures
        s@ == decimal_text(i as int),
{
    let mut s = String::new();
    if i < 0 {
        push_char(&mut s, '-');
        let magnitude: u64 = (0i128 - (i as i128)) as u64;
        push_decimal(&mut s, magnitude);
    } else {
        push_decimal(&mut s, i as u64);
    }
    s
}

/// The text of a boolean (`b.to_string()`).
pub fn bool_to_string(b: bool) -> (s: String)
    ensures
        s@ == bool_text(b),
{
    if b {
        String::from_str("true")
    } else {
        String::from_str("false")
    }
}

fn message(text: &str) -> (e: Option<Result<NativeStep, String>>)
    ensures
        call_outcome_model(e) == Some(Err::<StepModel, Seq<char>>(text@)),
{
    Some(Err(String::from_str(text)))
}

fn finished(v: Value) -> (e: Option<Result<NativeStep, String>>)
    ensures
        call_outcome_model(e) == Some(Ok::<StepModel, Seq<char>>(StepModel::Finished(v.model()))),
{
    Some(Ok(NativeStep::Finished(v)))
}

/// Decides what a call of the built-in function `func` with `args` does.
/// Returns `None` when `func` is not a built-in.
pub fn handle_call(func: &str, args: &[Value]) -> (r: Option<Result<NativeStep, String>>)
    ensures
        call_outcome_model(r) == native_call(func@, value_models(args@)),
{
    let ghost models = value_models(args@);
    if same_text(func, "print") {
        if args.len() != 1 {
            return message("print requires exactly 1 argument");
        }
        match &args[0] {
            Value::String(s) => Some(Ok(NativeStep::Print(s.clone()))),
            _ => message("print requires a string"),
        }
    } else if same_text(func, "int_to_string") {
        if args.len() != 1 {
            return message("int_to_string requires 1 arg");
        }
        match &args[0] {
            Value::Int(i) => finished(Value::String(int_to_string(*i))),
            _ => message("Expected int"),
        }
    } else if same_text(func, "float_to_string") {
        if args.len() != 1 {
            return message("float_to_string requires 1 arg");
        }
        match &args[0] {
            Value::Float(bits) => Some(Ok(NativeStep::FormatFloat(*bits))),
            _ => message("Expected float"),
        }
    } else if same_text(func, "bool_to_string") {
        if args.len() != 1 {
            return message("bool_to_string requires 1 arg");
        }
        match &args[0] {
            Value::Bool(b) => finished(Value::String(bool_to_string(*b))),
            _ => message("Expected bool"),
        }
    } else if same_text(func, "drop_i64") {
        if args.len() != 1 {
            return message("drop_i64 requires exactly 1 argument");
        }
        finished(Value::Unit)
    } else if same_text(func, "drop_array") {
        if args.len() != 1 {
            return message("drop_array requires exactly 1 argument");
        }
        finished(Value::Unit)
    } else {
        None
    }
}

/// `bool_to_string` on one boolean finishes with that boolean's text:
/// `"true"` exactly when it is `true` and `"false"` exactly when it is
/// `false`, so the two booleans give different texts.
pub proof fn lemma_bool_to_string_call(b: bool)
    ensures
        native_call("bool_to_string"@, seq![ValueModel::Bool(b)]) == Some(
            Ok::<StepModel, Seq<char>>(
                StepModel::Finished(ValueModel::String(if b { "true"@ } else { "false"@ })),
            ),
        ),
        native_call("bool_to_string"@, seq![ValueModel::Bool(true)]) != native_call(
            "bool_to_string"@,
            seq![ValueModel::Bool(false)],
        ),
{
    reveal_strlit("true");
    reveal_strlit("false");
    reveal_strlit("bool_to_string");
    reveal_strlit("print");
    reveal_strlit("int_to_string");
    reveal_strlit("float_to_string");
    assert("true"@.len() != "false"@.len());
    assert("bool_to_string"@[0] != "print"@[0]);
    assert("bool_to_string"@[0] != "int_to_string"@[0]);
    assert("bool_to_string"@[0] != "float_to_string"@[0]);
}

/// Whether `c` is one of the characters `0` to `9`.
pub open spec fn is_decimal_digit(c: char) -> bool {
    '0' as u32 <= c as u32 <= '9' as u32
}

/// The number that a string of decimal digits denotes, most significant
/// digit first.
pub open spec fn digits_value(s: Seq<char>) -> int
    decreases s.len(),
{
    if s.len() == 0 {
        0
    } else {
        digits_value(s.drop_last()) * 10 + (s.last() as u32 - '0' as u32)
    }
}

proof fn lemma_decimal_digits_read_back(n: nat)
    ensures
        decimal_digits(n).len() > 0,
        forall|k: int| 0 <= k < decimal_digits(n).len() ==> is_decimal_digit(#[trigger] decimal_digits(n)[k]),
        decimal_digits(n)[0] == '0' ==> n == 0 && decimal_digits(n).len() == 1,
        digits_value(decimal_digits(n)) == n,
    decreases n,
{
    let d = n % 10;
    assert(0 <= d < 10);
    assert(is_decimal_digit(digit_char(d as int)) && digit_char(d as int) as u32 - '0' as u32 == d);
    if n >= 10 {
        let q = n / 10;
        lemma_decimal_digits_read_back(q);
        let inner = decimal_digits(q);
        let t = decimal_digits(n);
        assert(t == inner.push(digit_char(d as int)));
        assert(t.drop_last() =~= inner);
        assert(t[0] == inner[0]);
        assert forall|k: int| 0 <= k < t.len() implies is_decimal_digit(#[trigger] t[k]) by {
            if k < inner.len() {
                assert(t[k] == inner[k]);
            }
        }
        vstd::arithmetic::div_mod::lemma_fundamental_div_mod(n as int, 10);
        assert(t.last() == digit_char(d as int));
        assert(digits_value(t) == digits_value(inner) * 10 + d);
        assert(n == q * 10 + d);
    } else {
        let t = decimal_digits(n);
        assert(d == n);
        assert(t.drop_last() =~= Seq::<char>::empty());
        assert(t.last() == digit_char(n as int));
        assert(digits_value(t) == digits_value(t.drop_last()) * 10 + d);
    }
}

/// `int_to_string` writes the decimal numeral of its argument: a `-` exactly
/// when the number is negative, then one or more decimal digits with no
/// leading zero (but for the number 0 itself), which read back as the
/// number's absolute value.
pub proof fn lemma_int_text_reads_back(i: int)
    ensures
        ({
            let t = decimal_text(i);
            let digits = if i < 0 {
                t.drop_first()
            } else {
                t
            };
            &&& (t.len() > 0 && t[0] == '-') <==> i < 0
            &&& digits.len() > 0
            &&& forall|k: int| 0 <= k < digits.len() ==> is_decimal_digit(#[trigger] digits[k])
            &&& digits[0] == '0' ==> i == 0 && digits.len() == 1
            &&& digits_value(digits) == if i < 0 {
                -i
            } else {
                i
            }
        }),
{
    let m: nat = if i < 0 {
        (-i) as nat
    } else {
        i as nat
    };
    lemma_decimal_digits_read_back(m);
    let t = decimal_text(i);
    if i < 0 {
        assert(t.drop_first() =~= decimal_digits(m));
    } else {
        assert(is_decimal_digit(t[0]));
    }
}

/// A call of `print` with one string asks to write exactly that string;
/// `int_to_string` with one integer finishes with its decimal numeral;
/// `float_to_string` with one float asks to format exactly those bits; the
/// drops with one argument finish with `Unit`; each built-in refuses any
/// other number of arguments with an error, and a name that is not a
/// built-in is not handled.
pub proof fn lemma_builtin_calls(func: Seq<char>, args: Seq<ValueModel>, s: Seq<char>, i: i64, bits: u64)
    ensures
        native_call("print"@, seq![ValueModel::String(s)]) == Some(
            Ok::<StepModel, Seq<char>>(StepModel::Print(s)),
        ),
        native_call("int_to_string"@, seq![ValueModel::Int(i)]) == Some(
            Ok::<StepModel, Seq<char>>(StepModel::Finished(ValueModel::String(decimal_text(i as int)))),
        ),
        native_call("float_to_string"@, seq![ValueModel::Float(bits)]) == Some(
            Ok::<StepModel, Seq<char>>(StepModel::FormatFloat(bits)),
        ),
        args.len() == 1 ==> native_call("drop_i64"@, args) == Some(
            Ok::<StepModel, Seq<char>>(StepModel::Finished(ValueModel::Unit)),
        ),
        args.len() == 1 ==> native_call("drop_array"@, args) == Some(
            Ok::<StepModel, Seq<char>>(StepModel::Finished(ValueModel::Unit)),
        ),
        args.len() != 1 && (func == "print"@ || func == "int_to_string"@ || func == "float_to_string"@
            || func == "bool_to_string"@ || func == "drop_i64"@ || func == "drop_array"@) ==> native_call(func, args) matches Some(Err(_)),
        !(func == "print"@ || func == "int_to_string"@ || func == "float_to_string"@
            || func == "bool_to_string"@ || func == "drop_i64"@ || func == "drop_array"@) ==> native_call(func, args) is None,
{
    reveal_strlit("print");
    reveal_strlit("int_to_string");
    reveal_strlit("float_to_string");
    reveal_strlit("bool_to_string");
    reveal_strlit("drop_i64");
    reveal_strlit("drop_array");
    assert("print"@[0] != "int_to_string"@[0]);
    assert("print"@[0] != "float_to_string"@[0]);
    assert("print"@[0] != "bool_to_string"@[0]);
    assert("print"@[0] != "drop_i64"@[0]);
    assert("print"@[0] != "drop_array"@[0]);
    assert("int_to_string"@[0] != "float_to_string"@[0]);
    assert("int_to_string"@[0] != "bool_to_string"@[0]);
    assert("int_to_string"@[0] != "drop_i64"@[0]);
    assert("int_to_string"@[0] != "drop_array"@[0]);
    assert("float_to_string"@[0] != "bool_to_string"@[0]);
    assert("float_to_string"@[0] != "drop_i64"@[0]);
    assert("float_to_string"@[0] != "drop_array"@[0]);
    assert("bool_to_string"@[0] != "drop_i64"@[0]);
    assert("bool_to_string"@[0] != "drop_array"@[0]);
    assert("drop_i64"@.len() != "drop_array"@.len());
}

} // verus!
