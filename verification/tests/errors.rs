use evalexpr::error::{
    expect_boolean, expect_function_argument_amount, expect_number, expect_number_or_string,
    expect_operator_argument_amount, expect_string, expect_tuple, EvalexprError,
};
use evalexpr::token::{PartialToken, Token};
use evalexpr::value::{Value, ValueType};

fn text(s: &str) -> Value {
    Value::String(s.to_string())
}

fn float(x: f64) -> Value {
    Value::Float(x.to_bits())
}

fn pair() -> Value {
    Value::Tuple(vec![Value::Int(1), Value::Tuple(vec![text("a"), Value::Empty])])
}

fn all_values() -> Vec<Value> {
    vec![
        text("abc"),
        float(1.5),
        Value::Int(3),
        Value::Boolean(true),
        pair(),
        Value::Empty,
    ]
}

#[test]
fn function_arity_mismatch_carries_both_counts() {
    assert_eq!(
        expect_function_argument_amount(1, 2),
        Err(EvalexprError::WrongFunctionArgumentAmount {
            actual: 1,
            expected: 2
        })
    );
    assert_eq!(expect_function_argument_amount(2, 2), Ok(()));
    assert_eq!(expect_function_argument_amount(0, 0), Ok(()));
}

#[test]
fn operator_arity_mismatch_carries_both_counts() {
    assert_eq!(
        expect_operator_argument_amount(1, 2),
        Err(EvalexprError::WrongOperatorArgumentAmount {
            actual: 1,
            expected: 2
        })
    );
    assert_eq!(
        expect_operator_argument_amount(3, 2),
        Err(EvalexprError::WrongOperatorArgumentAmount {
            actual: 3,
            expected: 2
        })
    );
    assert_eq!(expect_operator_argument_amount(2, 2), Ok(()));
}

#[test]
fn expect_number_accepts_numbers_only() {
    assert_eq!(expect_number(&Value::Int(3)), Ok(()));
    assert_eq!(expect_number(&float(1.5)), Ok(()));
    assert_eq!(
        expect_number(&text("abc")),
        Err(EvalexprError::ExpectedNumber {
            actual: text("abc")
        })
    );
    assert_eq!(
        expect_number(&Value::Boolean(true)),
        Err(EvalexprError::ExpectedNumber {
            actual: Value::Boolean(true)
        })
    );
    assert_eq!(
        expect_number(&pair()),
        Err(EvalexprError::ExpectedNumber { actual: pair() })
    );
    assert_eq!(
        expect_number(&Value::Empty),
        Err(EvalexprError::ExpectedNumber {
            actual: Value::Empty
        })
    );
}

#[test]
fn expect_string_returns_the_text() {
    assert_eq!(expect_string(&text("abc")), Ok("abc"));
    assert_eq!(expect_string(&text("")), Ok(""));
    for value in all_values() {
        if !matches!(value, Value::String(_)) {
            assert_eq!(
                expect_string(&value),
                Err(EvalexprError::ExpectedString {
                    actual: value.clone()
                })
            );
        }
    }
}

#[test]
fn expect_number_or_string_accepts_both() {
    assert_eq!(expect_number_or_string(&text("abc")), Ok(()));
    assert_eq!(expect_number_or_string(&Value::Int(3)), Ok(()));
    assert_eq!(expect_number_or_string(&float(0.0)), Ok(()));
    for value in [Value::Boolean(false), pair(), Value::Empty] {
        assert_eq!(
            expect_number_or_string(&value),
            Err(EvalexprError::ExpectedNumberOrString {
                actual: value.clone()
            })
        );
    }
}

#[test]
fn expect_boolean_returns_the_flag() {
    assert_eq!(expect_boolean(&Value::Boolean(true)), Ok(true));
    assert_eq!(expect_boolean(&Value::Boolean(false)), Ok(false));
    for value in all_values() {
        if !matches!(value, Value::Boolean(_)) {
            assert_eq!(
                expect_boolean(&value),
                Err(EvalexprError::ExpectedBoolean {
                    actual: value.clone()
                })
            );
        }
    }
}

#[test]
fn expect_tuple_returns_the_items() {
    let items = vec![Value::Int(1), Value::Tuple(vec![text("a"), Value::Empty])];
    assert_eq!(expect_tuple(&pair()), Ok(&items));
    assert_eq!(expect_tuple(&Value::Tuple(vec![])), Ok(&vec![]));
    for value in all_values() {
        if !matches!(value, Value::Tuple(_)) {
            assert_eq!(
                expect_tuple(&value),
                Err(EvalexprError::ExpectedTuple {
                    actual: value.clone()
                })
            );
        }
    }
}

#[test]
fn constructors_fill_their_variant() {
    assert_eq!(
        EvalexprError::wrong_operator_argument_amount(1, 2),
        EvalexprError::WrongOperatorArgumentAmount {
            actual: 1,
            expected: 2
        }
    );
    assert_eq!(
        EvalexprError::wrong_function_argument_amount(1, 2),
        EvalexprError::WrongFunctionArgumentAmount {
            actual: 1,
            expected: 2
        }
    );
    assert_eq!(
        EvalexprError::type_error(Value::Int(1), vec![text(""), Value::Empty]),
        EvalexprError::TypeError {
            actual: Value::Int(1),
            expected: vec![text(""), Value::Empty]
        }
    );
    assert_eq!(
        EvalexprError::expected_string(Value::Int(1)),
        EvalexprError::ExpectedString {
            actual: Value::Int(1)
        }
    );
    assert_eq!(
        EvalexprError::expected_int(text("a")),
        EvalexprError::ExpectedInt { actual: text("a") }
    );
    assert_eq!(
        EvalexprError::expected_float(text("a")),
        EvalexprError::ExpectedFloat { actual: text("a") }
    );
    assert_eq!(
        EvalexprError::expected_number(text("a")),
        EvalexprError::ExpectedNumber { actual: text("a") }
    );
    assert_eq!(
        EvalexprError::expected_number_or_string(Value::Empty),
        EvalexprError::ExpectedNumberOrString {
            actual: Value::Empty
        }
    );
    assert_eq!(
        EvalexprError::expected_boolean(text("a")),
        EvalexprError::ExpectedBoolean { actual: text("a") }
    );
    assert_eq!(
        EvalexprError::expected_tuple(text("a")),
        EvalexprError::ExpectedTuple { actual: text("a") }
    );
    assert_eq!(
        EvalexprError::expected_empty(text("a")),
        EvalexprError::ExpectedEmpty { actual: text("a") }
    );
    assert_eq!(
        EvalexprError::invalid_regex("(".to_string(), "unclosed group".to_string()),
        EvalexprError::InvalidRegex {
            regex: "(".to_string(),
            message: "unclosed group".to_string()
        }
    );
    assert_eq!(
        EvalexprError::unmatched_partial_token(
            PartialToken::Eq,
            Some(PartialToken::Token(Token::Plus))
        ),
        EvalexprError::UnmatchedPartialToken {
            first: PartialToken::Eq,
            second: Some(PartialToken::Token(Token::Plus))
        }
    );
}

#[test]
fn arithmetic_constructors_keep_operand_order() {
    let a = Value::Int(i64::MAX);
    let b = Value::Int(1);
    assert_eq!(
        EvalexprError::addition_error(a.clone(), b.clone()),
        EvalexprError::AdditionError {
            augend: a.clone(),
            addend: b.clone()
        }
    );
    assert_eq!(
        EvalexprError::subtraction_error(a.clone(), b.clone()),
        EvalexprError::SubtractionError {
            minuend: a.clone(),
            subtrahend: b.clone()
        }
    );
    assert_eq!(
        EvalexprError::negation_error(a.clone()),
        EvalexprError::NegationError {
            argument: a.clone()
        }
    );
    assert_eq!(
        EvalexprError::multiplication_error(a.clone(), b.clone()),
        EvalexprError::MultiplicationError {
            multiplicand: a.clone(),
            multiplier: b.clone()
        }
    );
    assert_eq!(
        EvalexprError::division_error(a.clone(), b.clone()),
        EvalexprError::DivisionError {
            dividend: a.clone(),
            divisor: b.clone()
        }
    );
    assert_eq!(
        EvalexprError::modulation_error(a.clone(), b.clone()),
        EvalexprError::ModulationError {
            dividend: a.clone(),
            divisor: b.clone()
        }
    );
    assert_ne!(
        EvalexprError::division_error(a.clone(), b.clone()),
        EvalexprError::division_error(b, a)
    );
}

#[test]
fn expected_type_goes_by_the_kind_of_the_expected_value() {
    let actual = Value::Boolean(true);
    assert_eq!(
        EvalexprError::expected_type(&text("x"), actual.clone()),
        EvalexprError::expected_string(actual.clone())
    );
    assert_eq!(
        EvalexprError::expected_type(&Value::Int(0), actual.clone()),
        EvalexprError::expected_int(actual.clone())
    );
    assert_eq!(
        EvalexprError::expected_type(&float(0.5), actual.clone()),
        EvalexprError::expected_float(actual.clone())
    );
    assert_eq!(
        EvalexprError::expected_type(&Value::Boolean(false), Value::Empty),
        EvalexprError::expected_boolean(Value::Empty)
    );
    assert_eq!(
        EvalexprError::expected_type(&pair(), actual.clone()),
        EvalexprError::expected_tuple(actual.clone())
    );
    assert_eq!(
        EvalexprError::expected_type(&Value::Empty, actual.clone()),
        EvalexprError::expected_empty(actual)
    );
}

#[test]
fn value_types() {
    let kinds: Vec<ValueType> = all_values().iter().map(|v| v.value_type()).collect();
    assert_eq!(
        kinds,
        vec![
            ValueType::String,
            ValueType::Float,
            ValueType::Int,
            ValueType::Boolean,
            ValueType::Tuple,
            ValueType::Empty
        ]
    );
}

#[test]
fn values_clone_deeply() {
    for value in all_values() {
        assert_eq!(value.clone(), value);
    }
    assert_ne!(pair().clone(), Value::Tuple(vec![Value::Int(1)]));
}
