//! The calculator's operators and the rule that picks one from a token.

use vstd::prelude::*;

verus! {

/// One of the four operations the calculator performs.
#[derive(Clone, Copy, Debug, PartialEq, Eq, Structural)]
pub enum Operator {
    Add,
    Subtract,
    Multiply,
    Divide,
}

/// Why a round of the calculator yields no number.
#[derive(Clone, Copy, Debug, PartialEq, Eq, Structural)]
pub enum CalcError {
    /// The operator was `/` and the second operand was zero.
    DivisionByZero,
    /// The operator token was none of `+`, `-`, `*`, `/`.
    InvalidOperator,
}

/// The operator that a token stands for: a token names an operator exactly
/// when it is one of the single characters `+`, `-`, `*` and `/`.
pub open spec fn operator_of(token: Seq<char>) -> Option<Operator> {
    if token.len() != 1 {
        None
    } else if token[0] == '+' {
        Some(Operator::Add)
    } else if token[0] == '-' {
        Some(Operator::Subtract)
    } else if token[0] == '*' {
        Some(Operator::Multiply)
    } else if token[0] == '/' {
        Some(Operator::Divide)
    } else {
        None
    }
}

/// What a round comes to once the operator is read and both operands are in:
/// the operation to carry out, or the error to report. Of the operands only
/// one fact matters, whether the second is zero, and only for division.
pub open spec fn resolved(operator: Option<Operator>, divisor_is_zero: bool) -> Result<
    Operator,
    CalcError,
> {
    match operator {
        None => Err(CalcError::InvalidOperator),
        Some(Operator::Divide) => if divisor_is_zero {
            Err(CalcError::DivisionByZero)
        } else {
            Ok(Operator::Divide)
        },
        Some(op) => Ok(op),
    }
}

/// [`resolved`] for the operator that a token stands for.
pub open spec fn dispatched(token: Seq<char>, divisor_is_zero: bool) -> Result<
    Operator,
    CalcError,
> {
    resolved(operator_of(token), divisor_is_zero)
}

impl CalcError {
    /// The text shown to the user for this error.
    pub open spec fn text(self) -> Seq<char> {
        match self {
            CalcError::DivisionByZero => "错误：除数不能为零"@,
            CalcError::InvalidOperator => "无效的操作符"@,
        }
    }

    /// The text shown to the user for this error.
    pub fn message(&self) -> (s: &'static str)
        ensures
            s@ == self.text(),
    {
        match self {
            CalcError::DivisionByZero => "错误：除数不能为零",
            CalcError::InvalidOperator => "无效的操作符",
        }
    }
}

impl Operator {
    /// The character that names this operator.
    pub open spec fn glyph(self) -> char {
        match self {
            Operator::Add => '+',
            Operator::Subtract => '-',
            Operator::Multiply => '*',
            Operator::Divide => '/',
        }
    }

    /// The token that names this operator.
    pub fn symbol(&self) -> (s: &'static str)
        ensures
            s@ == seq![self.glyph()],
    {
        proof {
            reveal_strlit("+");
            reveal_strlit("-");
            reveal_strlit("*");
            reveal_strlit("/");
        }
        match self {
            Operator::Add => "+",
            Operator::Subtract => "-",
            Operator::Multiply => "*",
            Operator::Divide => "/",
        }
    }
}

/// Reads an operator from a token that carries no surrounding white space.
pub fn parse_operator(token: &str) -> (found: Option<Operator>)
    ensures
        found == operator_of(token@),
{
    if token.unicode_len() != 1 {
        return None;
    }
    let c = token.get_char(0);
    if c == '+' {
        Some(Operator::Add)
    } else if c == '-' {
        Some(Operator::Subtract)
    } else if c == '*' {
        Some(Operator::Multiply)
    } else if c == '/' {
        Some(Operator::Divide)
    } else {
        None
    }
}

/// Decides a round from the operator that was read, if any, and from whether
/// the second operand is zero.
pub fn resolve(operator: Option<Operator>, divisor_is_zero: bool) -> (outcome: Result<
    Operator,
    CalcError,
>)
    ensures
        outcome == resolved(operator, divisor_is_zero),
{
    match operator {
        None => Err(CalcError::InvalidOperator),
        Some(Operator::Divide) => {
            if divisor_is_zero {
                Err(CalcError::DivisionByZero)
            } else {
                Ok(Operator::Divide)
            }
        },
        Some(op) => Ok(op),
    }
}

/// Decides a round from the operator token and from whether the second
/// operand is zero.
pub fn dispatch(token: &str, divisor_is_zero: bool) -> (outcome: Result<Operator, CalcError>)
    ensures
        outcome == dispatched(token@, divisor_is_zero),
{
    resolve(parse_operator(token), divisor_is_zero)
}

/// Addition, subtraction and multiplication never fail: whatever the
/// operands, the round comes to the operation that the token names.
pub proof fn sum_difference_product_always_compute(divisor_is_zero: bool)
    ensures
        dispatched(seq!['+'], divisor_is_zero) == Ok::<Operator, CalcError>(Operator::Add),
        dispatched(seq!['-'], divisor_is_zero) == Ok::<Operator, CalcError>(Operator::Subtract),
        dispatched(seq!['*'], divisor_is_zero) == Ok::<Operator, CalcError>(Operator::Multiply),
{
}

/// Division is carried out exactly when the divisor is not zero; with a zero
/// divisor the round is the division-by-zero error and never an operation.
pub proof fn division_computes_unless_divisor_is_zero(divisor_is_zero: bool)
    ensures
        !divisor_is_zero ==> dispatched(seq!['/'], divisor_is_zero) == Ok::<Operator, CalcError>(
            Operator::Divide,
        ),
        divisor_is_zero ==> dispatched(seq!['/'], divisor_is_zero) == Err::<Operator, CalcError>(
            CalcError::DivisionByZero,
        ),
{
}

/// A token other than `+`, `-`, `*` and `/` is the invalid-operator error,
/// whatever the operands.
pub proof fn unknown_token_is_invalid_operator(token: Seq<char>, divisor_is_zero: bool)
    requires
        token != seq!['+'],
        token != seq!['-'],
        token != seq!['*'],
        token != seq!['/'],
    ensures
        dispatched(token, divisor_is_zero) == Err::<Operator, CalcError>(
            CalcError::InvalidOperator,
        ),
{
    if token.len() == 1 {
        assert(token =~= seq![token[0]]);
    }
}

/// An error is reported for a round exactly when the token names no operator,
/// or names division while the divisor is zero.
pub proof fn errors_are_exactly_bad_token_or_zero_divisor(token: Seq<char>, divisor_is_zero: bool)
    ensures
        dispatched(token, divisor_is_zero) is Err <==> (operator_of(token) is None || (token
            == seq!['/'] && divisor_is_zero)),
{
    if token.len() == 1 {
        assert(token =~= seq![token[0]]);
    }
}

} // verus!
