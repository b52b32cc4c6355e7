//! The errors of the expression language, and helpers that check a condition
//! and return the matching error where it does not hold.

use crate::token::{PartialToken, PartialTokenView};
use crate::value::{tuple_view, TupleType, Value, ValueType, ValueView};
use vstd::prelude::*;

verus! {

/// Errors of lexing, parsing and evaluation.
#[allow(inconsistent_fields)]
#[derive(Debug, PartialEq)]
pub enum EvalexprError {
    /// An operator was called with a wrong amount of arguments.
    WrongOperatorArgumentAmount {
        /// The expected amount of arguments.
        expected: usize,
        /// The actual amount of arguments.
        actual: usize,
    },
    /// A function was called with a wrong amount of arguments.
    WrongFunctionArgumentAmount {
        /// The expected amount of arguments.
        expected: usize,
        /// The actual amount of arguments.
        actual: usize,
    },
    /// A string value was expected.
    ExpectedString {
        /// The actual value.
        actual: Value,
    },
    /// An integer value was expected.
    ExpectedInt {
        /// The actual value.
        actual: Value,
    },
    /// A float value was expected.
    ExpectedFloat {
        /// The actual value.
        actual: Value,
    },
    /// A numeric value was expected: an integer or a float.
    ExpectedNumber {
        /// The actual value.
        actual: Value,
    },
    /// A numeric or string value was expected.
    ExpectedNumberOrString {
        /// The actual value.
        actual: Value,
    },
    /// A boolean value was expected.
    ExpectedBoolean {
        /// The actual value.
        actual: Value,
    },
    /// A tuple value was expected.
    ExpectedTuple {
        /// The actual value.
        actual: Value,
    },
    /// An empty value was expected.
    ExpectedEmpty {
        /// The actual value.
        actual: Value,
    },
    /// Tried to append a child to a leaf node. Leaf nodes cannot have
    /// children.
    AppendedToLeafNode,
    /// Tried to append a child to a node such that the precedence of the
    /// child is not higher. Correct operation never produces this error.
    PrecedenceViolation,
    /// A variable identifier was not found in the context.
    VariableIdentifierNotFound(String),
    /// A function identifier was not found in the context.
    FunctionIdentifierNotFound(String),
    /// A value has the wrong type. For use where no other variant describes
    /// the expected and provided types in more detail.
    TypeError {
        /// The expected types.
        expected: TupleType,
        /// The actual value.
        actual: Value,
    },
    /// An opening brace without a matching closing brace was found.
    UnmatchedLBrace,
    /// A closing brace without a matching opening brace was found.
    UnmatchedRBrace,
    /// A partial token cannot be combined into a full token, as a single `=`
    /// that no second `=` follows.
    UnmatchedPartialToken {
        /// The unmatched partial token.
        first: PartialToken,
        /// The partial token that follows it and cannot complete it, or
        /// `None` where `first` is the last one of the input.
        second: Option<PartialToken>,
    },
    /// An addition failed.
    AdditionError {
        /// The first argument of the addition.
        augend: Value,
        /// The second argument of the addition.
        addend: Value,
    },
    /// A subtraction failed.
    SubtractionError {
        /// The first argument of the subtraction.
        minuend: Value,
        /// The second argument of the subtraction.
        subtrahend: Value,
    },
    /// A negation failed.
    NegationError {
        /// The argument of the negation.
        argument: Value,
    },
    /// A multiplication failed.
    MultiplicationError {
        /// The first argument of the multiplication.
        multiplicand: Value,
        /// The second argument of the multiplication.
        multiplier: Value,
    },
    /// A division failed.
    DivisionError {
        /// The first argument of the division.
        dividend: Value,
        /// The second argument of the division.
        divisor: Value,
    },
    /// A modulation failed.
    ModulationError {
        /// The first argument of the modulation.
        dividend: Value,
        /// The second argument of the modulation.
        divisor: Value,
    },
    /// A regular expression could not be parsed.
    InvalidRegex {
        /// The invalid regular expression.
        regex: String,
        /// The failure message of the regex engine.
        message: String,
    },
    /// A modification was attempted on a context that does not allow
    /// modifications.
    ContextNotManipulable,
    /// An escape sequence within a string literal is illegal.
    IllegalEscapeSequence(String),
    /// A custom error explained by its message.
    CustomMessage(String),
}

/// The mathematical content of an [`EvalexprError`].
#[allow(inconsistent_fields)]
pub enum EvalexprErrorView {
    WrongOperatorArgumentAmount { expected: usize, actual: usize },
    WrongFunctionArgumentAmount { expected: usize, actual: usize },
    ExpectedString { actual: ValueView },
    ExpectedInt { actual: ValueView },
    ExpectedFloat { actual: ValueView },
    ExpectedNumber { actual: ValueView },
    ExpectedNumberOrString { actual: ValueView },
    ExpectedBoolean { actual: ValueView },
    ExpectedTuple { actual: ValueView },
    ExpectedEmpty { actual: ValueView },
    AppendedToLeafNode,
    PrecedenceViolation,
    VariableIdentifierNotFound(Seq<char>),
    FunctionIdentifierNotFound(Seq<char>),
    TypeError { expected: Seq<ValueView>, actual: ValueView },
    UnmatchedLBrace,
    UnmatchedRBrace,
    UnmatchedPartialToken { first: PartialTokenView, second: Option<PartialTokenView> },
    AdditionError { augend: ValueView, addend: ValueView },
    SubtractionError { minuend: ValueView, subtrahend: ValueView },
    NegationError { argument: ValueView },
    MultiplicationError { multiplicand: ValueView, multiplier: ValueView },
    DivisionError { dividend: ValueView, divisor: ValueView },
    ModulationError { dividend: ValueView, divisor: ValueView },
    InvalidRegex { regex: Seq<char>, message: Seq<char> },
    ContextNotManipulable,
    IllegalEscapeSequence(Seq<char>),
    CustomMessage(Seq<char>),
}

/// The view of an optional partial token.
pub open spec fn optional_partial_view(token: Option<PartialToken>) -> Option<PartialTokenView> {
    match token {
        Some(partial) => Some(partial@),
        None => None,
    }
}

impl View for EvalexprError {
    type V = EvalexprErrorView;

    open spec fn view(&self) -> EvalexprErrorView {
        match self {
            EvalexprError::WrongOperatorArgumentAmount { expected, actual } => {
                EvalexprErrorView::WrongOperatorArgumentAmount {
                    expected: *expected,
                    actual: *actual,
                }
            },
            EvalexprError::WrongFunctionArgumentAmount { expected, actual } => {
                EvalexprErrorView::WrongFunctionArgumentAmount {
                    expected: *expected,
                    actual: *actual,
                }
            },
            EvalexprError::ExpectedString { actual } => EvalexprErrorView::ExpectedString {
                actual: actual@,
            },
            EvalexprError::ExpectedInt { actual } => EvalexprErrorView::ExpectedInt {
                actual: actual@,
            },
            EvalexprError::ExpectedFloat { actual } => EvalexprErrorView::ExpectedFloat {
                actual: actual@,
            },
            EvalexprError::ExpectedNumber { actual } => EvalexprErrorView::ExpectedNumber {
                actual: actual@,
            },
            EvalexprError::ExpectedNumberOrString {
                actual,
            } => EvalexprErrorView::ExpectedNumberOrString { actual: actual@ },
            EvalexprError::ExpectedBoolean { actual } => EvalexprErrorView::ExpectedBoolean {
                actual: actual@,
            },
            EvalexprError::ExpectedTuple { actual } => EvalexprErrorView::ExpectedTuple {
                actual: actual@,
            },
            EvalexprError::ExpectedEmpty { actual } => EvalexprErrorView::ExpectedEmpty {
                actual: actual@,
            },
            EvalexprError::AppendedToLeafNode => EvalexprErrorView::AppendedToLeafNode,
            EvalexprError::PrecedenceViolation => EvalexprErrorView::PrecedenceViolation,
            EvalexprError::VariableIdentifierNotFound(name) => {
                EvalexprErrorView::VariableIdentifierNotFound(name@)
            },
            EvalexprError::FunctionIdentifierNotFound(name) => {
                EvalexprErrorView::FunctionIdentifierNotFound(name@)
            },
            EvalexprError::TypeError { expected, actual } => EvalexprErrorView::TypeError {
                expected: tuple_view(expected@),
                actual: actual@,
            },
            EvalexprError::UnmatchedLBrace => EvalexprErrorView::UnmatchedLBrace,
            EvalexprError::UnmatchedRBrace => EvalexprErrorView::UnmatchedRBrace,
            EvalexprError::UnmatchedPartialToken {
                first,
                second,
            } => EvalexprErrorView::UnmatchedPartialToken {
                first: first@,
                second: optional_partial_view(*second),
            },
            EvalexprError::AdditionError { augend, addend } => EvalexprErrorView::AdditionError {
                augend: augend@,
                addend: addend@,
            },
            EvalexprError::SubtractionError {
                minuend,
                subtrahend,
            } => EvalexprErrorView::SubtractionError {
                minuend: minuend@,
                subtrahend: subtrahend@,
            },
            EvalexprError::NegationError { argument } => EvalexprErrorView::NegationError {
                argument: argument@,
            },
            EvalexprError::MultiplicationError {
                multiplicand,
                multiplier,
            } => EvalexprErrorView::MultiplicationError {
                multiplicand: multiplicand@,
                multiplier: multiplier@,
            },
            EvalexprError::DivisionError { dividend, divisor } => EvalexprErrorView::DivisionError {
                dividend: dividend@,
                divisor: divisor@,
            },
            EvalexprError::ModulationError {
                dividend,
                divisor,
            } => EvalexprErrorView::ModulationError { dividend: dividend@, divisor: divisor@ },
            EvalexprError::InvalidRegex { regex, message } => EvalexprErrorView::InvalidRegex {
                regex: regex@,
                message: message@,
            },
            EvalexprError::ContextNotManipulable => EvalexprErrorView::ContextNotManipulable,
            EvalexprError::IllegalEscapeSequence(sequence) => {
                EvalexprErrorView::IllegalEscapeSequence(sequence@)
            },
            EvalexprError::CustomMessage(message) => EvalexprErrorView::CustomMessage(message@),
        }
    }
}

/// Standard result type of this crate.
pub type EvalexprResult<T> = Result<T, EvalexprError>;

impl EvalexprError {
    /// Constructs `EvalexprError::WrongOperatorArgumentAmount{actual, expected}`.
    pub fn wrong_operator_argument_amount(actual: usize, expected: usize) -> (error: Self)
        ensures
            error@ == (EvalexprErrorView::WrongOperatorArgumentAmount { expected, actual }),
    {
        EvalexprError::WrongOperatorArgumentAmount { actual, expected }
    }

    /// Constructs `EvalexprError::WrongFunctionArgumentAmount{actual, expected}`.
    pub fn wrong_function_argument_amount(actual: usize, expected: usize) -> (error: Self)
        ensures
            error@ == (EvalexprErrorView::WrongFunctionArgumentAmount { expected, actual }),
    {
        EvalexprError::WrongFunctionArgumentAmount { actual, expected }
    }

    /// Constructs `EvalexprError::TypeError{actual, expected}`.
    pub fn type_error(actual: Value, expected: TupleType) -> (error: Self)
        ensures
            error@ == (EvalexprErrorView::TypeError {
                expected: tuple_view(expected@),
                actual: actual@,
            }),
    {
        EvalexprError::TypeError { actual, expected }
    }

    /// Constructs `EvalexprError::ExpectedString{actual}`.
    pub fn expected_string(actual: Value) -> (error: Self)
        ensures
            error@ == (EvalexprErrorView::ExpectedString { actual: actual@ }),
    {
        EvalexprError::ExpectedString { actual }
    }

    /// Constructs `EvalexprError::ExpectedInt{actual}`.
    pub fn expected_int(actual: Value) -> (error: Self)
        ensures
            error@ == (EvalexprErrorView::ExpectedInt { actual: actual@ }),
    {
        EvalexprError::ExpectedInt { actual }
    }

    /// Constructs `EvalexprError::ExpectedFloat{actual}`.
    pub fn expected_float(actual: Value) -> (error: Self)
        ensures
            error@ == (EvalexprErrorView::ExpectedFloat { actual: actual@ }),
    {
        EvalexprError::ExpectedFloat { actual }
    }

    /// Constructs `EvalexprError::ExpectedNumber{actual}`.
    pub fn expected_number(actual: Value) -> (error: Self)
        ensures
            error@ == (EvalexprErrorView::ExpectedNumber { actual: actual@ }),
    {
        EvalexprError::ExpectedNumber { actual }
    }

    /// Constructs `EvalexprError::ExpectedNumberOrString{actual}`.
    pub fn expected_number_or_string(actual: Value) -> (error: Self)
        ensures
            error@ == (EvalexprErrorView::ExpectedNumberOrString { actual: actual@ }),
    {
        EvalexprError::ExpectedNumberOrString { actual }
    }

    /// Constructs `EvalexprError::ExpectedBoolean{actual}`.
    pub fn expected_boolean(actual: Value) -> (error: Self)
        ensures
            error@ == (EvalexprErrorView::ExpectedBoolean { actual: actual@ }),
    {
        EvalexprError::ExpectedBoolean { actual }
    }

    /// Constructs `EvalexprError::ExpectedTuple{actual}`.
    pub fn expected_tuple(actual: Value) -> (error: Self)
        ensures
            error@ == (EvalexprErrorView::ExpectedTuple { actual: actual@ }),
    {
        EvalexprError::ExpectedTuple { actual }
    }

    /// Constructs `EvalexprError::ExpectedEmpty{actual}`.
    pub fn expected_empty(actual: Value) -> (error: Self)
        ensures
            error@ == (EvalexprErrorView::ExpectedEmpty { actual: actual@ }),
    {
        EvalexprError::ExpectedEmpty { actual }
    }

    /// Constructs the error that says that a value of the type of `expected`
    /// was expected, but `actual` was found.
    pub fn expected_type(expected: &Value, actual: Value) -> (error: Self)
        ensures
            error@ == expected_type_view(expected@.kind(), actual@),
    {
        match expected.value_type() {
            ValueType::String => Self::expected_string(actual),
            ValueType::Int => Self::expected_int(actual),
            ValueType::Float => Self::expected_float(actual),
            ValueType::Boolean => Self::expected_boolean(actual),
            ValueType::Tuple => Self::expected_tuple(actual),
            ValueType::Empty => Self::expected_empty(actual),
        }
    }

    /// Constructs `EvalexprError::UnmatchedPartialToken{first, second}`.
    pub fn unmatched_partial_token(first: PartialToken, second: Option<PartialToken>) -> (error:
        Self)
        ensures
            error@ == (EvalexprErrorView::UnmatchedPartialToken {
                first: first@,
                second: optional_partial_view(second),
            }),
    {
        EvalexprError::UnmatchedPartialToken { first, second }
    }

    /// Constructs `EvalexprError::AdditionError{augend, addend}`.
    pub fn addition_error(augend: Value, addend: Value) -> (error: Self)
        ensures
            error@ == (EvalexprErrorView::AdditionError { augend: augend@, addend: addend@ }),
    {
        EvalexprError::AdditionError { augend, addend }
    }

    /// Constructs `EvalexprError::SubtractionError{minuend, subtrahend}`.
    pub fn subtraction_error(minuend: Value, subtrahend: Value) -> (error: Self)
        ensures
            error@ == (EvalexprErrorView::SubtractionError { minuend: minuend@, subtrahend: subtrahend@ }),
    {
        EvalexprError::SubtractionError { minuend, subtrahend }
    }

    /// Constructs `EvalexprError::MultiplicationError{multiplicand, multiplier}`.
    pub fn multiplication_error(multiplicand: Value, multiplier: Value) -> (error: Self)
        ensures
            error@ == (EvalexprErrorView::MultiplicationError { multiplicand: multiplicand@, multiplier: multiplier@ }),
    {
        EvalexprError::MultiplicationError { multiplicand, multiplier }
    }

    /// Constructs `EvalexprError::DivisionError{dividend, divisor}`.
    pub fn division_error(dividend: Value, divisor: Value) -> (error: Self)
        ensures
            error@ == (EvalexprErrorView::DivisionError { dividend: dividend@, divisor: divisor@ }),
    {
        EvalexprError::DivisionError { dividend, divisor }
    }

    /// Constructs `EvalexprError::ModulationError{dividend, divisor}`.
    pub fn modulation_error(dividend: Value, divisor: Value) -> (error: Self)
        ensures
            error@ == (EvalexprErrorView::ModulationError { dividend: dividend@, divisor: divisor@ }),
    {
        EvalexprError::ModulationError { dividend, divisor }
    }

    /// Constructs `EvalexprError::NegationError{argument}`.
    pub fn negation_error(argument: Value) -> (error: Self)
        ensures
            error@ == (EvalexprErrorView::NegationError { argument: argument@ }),
    {
        EvalexprError::NegationError { argument }
    }

    /// Constructs `EvalexprError::InvalidRegex{regex, message}`.
    pub fn invalid_regex(regex: String, message: String) -> (error: Self)
        ensures
            error@ == (EvalexprErrorView::InvalidRegex { regex: regex@, message: message@ }),
    {
        EvalexprError::InvalidRegex { regex, message }
    }
}

/// The error that reports `actual` where a value of kind `expected` was
/// expected.
pub open spec fn expected_type_view(expected: ValueType, actual: ValueView) -> EvalexprErrorView {
    match expected {
        ValueType::String => EvalexprErrorView::ExpectedString { actual },
        ValueType::Int => EvalexprErrorView::ExpectedInt { actual },
        ValueType::Float => EvalexprErrorView::ExpectedFloat { actual },
        ValueType::Boolean => EvalexprErrorView::ExpectedBoolean { actual },
        ValueType::Tuple => EvalexprErrorView::ExpectedTuple { actual },
        ValueType::Empty => EvalexprErrorView::ExpectedEmpty { actual },
    }
}

/// Returns `Ok(())` if `actual` and `expected` are equal, and
/// `Err(EvalexprError::WrongOperatorArgumentAmount)` with both otherwise.
pub fn expect_operator_argument_amount(actual: usize, expected: usize) -> (result: EvalexprResult<
    (),
>)
    ensures
        actual == expected ==> result is Ok,
        actual != expected ==> result is Err && result->Err_0@ == (
        EvalexprErrorView::WrongOperatorArgumentAmount { expected, actual }),
{
    if actual == expected {
        Ok(())
    } else {
        Err(EvalexprError::wrong_operator_argument_amount(actual, expected))
    }
}

/// Returns `Ok(())` if `actual` and `expected` are equal, and
/// `Err(EvalexprError::WrongFunctionArgumentAmount)` with both otherwise.
pub fn expect_function_argument_amount(actual: usize, expected: usize) -> (result: EvalexprResult<
    (),
>)
    ensures
        actual == expected ==> result is Ok,
        actual != expected ==> result is Err && result->Err_0@ == (
        EvalexprErrorView::WrongFunctionArgumentAmount { expected, actual }),
{
    if actual == expected {
        Ok(())
    } else {
        Err(EvalexprError::wrong_function_argument_amount(actual, expected))
    }
}

/// Returns the text of `actual` if it is a string, and
/// `Err(EvalexprError::ExpectedString)` with a copy of `actual` otherwise.
pub fn expect_string(actual: &Value) -> (result: EvalexprResult<&str>)
    ensures
        actual@ is String ==> result is Ok && actual@ == ValueView::String(result->Ok_0@),
        !(actual@ is String) ==> result is Err && result->Err_0@ == (
        EvalexprErrorView::ExpectedString { actual: actual@ }),
{
    match actual {
        Value::String(string) => Ok(string.as_str()),
        _ => Err(EvalexprError::expected_string(actual.clone())),
    }
}

/// Returns `Ok(())` if `actual` is an integer or a float, and
/// `Err(EvalexprError::ExpectedNumber)` with a copy of `actual` otherwise.
pub fn expect_number(actual: &Value) -> (result: EvalexprResult<()>)
    ensures
        actual@.is_number() ==> result is Ok,
        !actual@.is_number() ==> result is Err && result->Err_0@ == (
        EvalexprErrorView::ExpectedNumber { actual: actual@ }),
{
    match actual {
        Value::Float(_) | Value::Int(_) => Ok(()),
        _ => Err(EvalexprError::expected_number(actual.clone())),
    }
}

/// Returns `Ok(())` if `actual` is a string, an integer or a float, and
/// `Err(EvalexprError::ExpectedNumberOrString)` with a copy of `actual`
/// otherwise.
pub fn expect_number_or_string(actual: &Value) -> (result: EvalexprResult<()>)
    ensures
        actual@.is_number() || actual@ is String ==> result is Ok,
        !(actual@.is_number() || actual@ is String) ==> result is Err && result->Err_0@ == (
        EvalexprErrorView::ExpectedNumberOrString { actual: actual@ }),
{
    match actual {
        Value::String(_) | Value::Float(_) | Value::Int(_) => Ok(()),
        _ => Err(EvalexprError::expected_number_or_string(actual.clone())),
    }
}

/// Returns the flag of `actual` if it is a boolean, and
/// `Err(EvalexprError::ExpectedBoolean)` with a copy of `actual` otherwise.
pub fn expect_boolean(actual: &Value) -> (result: EvalexprResult<bool>)
    ensures
        actual@ is Boolean ==> result is Ok && actual@ == ValueView::Boolean(result->Ok_0),
        !(actual@ is Boolean) ==> result is Err && result->Err_0@ == (
        EvalexprErrorView::ExpectedBoolean { actual: actual@ }),
{
    match actual {
        Value::Boolean(boolean) => Ok(*boolean),
        _ => Err(EvalexprError::expected_boolean(actual.clone())),
    }
}

/// Returns the items of `actual` if it is a tuple, and
/// `Err(EvalexprError::ExpectedTuple)` with a copy of `actual` otherwise.
pub fn expect_tuple(actual: &Value) -> (result: EvalexprResult<&TupleType>)
    ensures
        actual@ is Tuple ==> result is Ok && actual@ == ValueView::Tuple(
            tuple_view(result->Ok_0@),
        ),
        !(actual@ is Tuple) ==> result is Err && result->Err_0@ == (
        EvalexprErrorView::ExpectedTuple { actual: actual@ }),
{
    match actual {
        Value::Tuple(tuple) => Ok(tuple),
        _ => Err(EvalexprError::expected_tuple(actual.clone())),
    }
}

} // verus!
