//! What the calculator makes of the lines a user types, and the line it
//! answers with.

use crate::calculator::operator::{operator_of, parse_operator, Operator};
use vstd::prelude::*;
use vstd::string::*;

verus! {

/// The text that `str::trim` leaves of a line: the line without its leading
/// and trailing white space.
pub uninterp spec fn trimmed(line: Seq<char>) -> Seq<char>;

/// Calls `str::trim`, which returns the part of the line between its leading
/// and trailing white space. The contract only gives that part its name,
/// [`trimmed`]; nothing is claimed about which characters count as white
/// space.
#[verifier::external_body]
fn trim(line: &str) -> (token: &str)
    ensures
        token@ == trimmed(line@),
{
    line.trim()
}

/// Whether an answer to "continue?" that carries no surrounding white space
/// says yes: it does exactly when it is `y` or `Y`.
pub open spec fn affirmative(answer: Seq<char>) -> bool {
    answer.len() == 1 && (answer[0] == 'y' || answer[0] == 'Y')
}

/// Tells whether an answer that carries no surrounding white space says yes.
pub fn is_affirmative(answer: &str) -> (yes: bool)
    ensures
        yes == affirmative(answer@),
{
    if answer.unicode_len() != 1 {
        return false;
    }
    let c = answer.get_char(0);
    c == 'y' || c == 'Y'
}

/// Tells whether the line typed at the "continue?" prompt asks for another
/// round. White space around the answer is ignored.
pub fn wants_another_round(line: &str) -> (yes: bool)
    ensures
        yes == affirmative(trimmed(line@)),
{
    is_affirmative(trim(line))
}

/// Reads the operator from the line typed at the operator prompt. White
/// space around the token is ignored.
pub fn read_operator(line: &str) -> (found: Option<Operator>)
    ensures
        found == operator_of(trimmed(line@)),
{
    parse_operator(trim(line))
}

/// The line that reports a computed value: the two operands as the user
/// will read them, the operator between them, and the value after `=`.
pub open spec fn result_text(
    first: Seq<char>,
    operator: Operator,
    second: Seq<char>,
    value: Seq<char>,
) -> Seq<char> {
    "结果: "@ + first + seq![' ', operator.glyph(), ' '] + second + " = "@ + value
}

/// Builds the line that reports a computed value from the printed forms of
/// the operands and of the value.
pub fn result_line(first: &str, operator: Operator, second: &str, value: &str) -> (line: String)
    ensures
        line@ == result_text(first@, operator, second@, value@),
{
    let mut line = String::from_str("结果: ");
    line.append(first);
    line.append(" ");
    line.append(operator.symbol());
    line.append(" ");
    line.append(second);
    line.append(" = ");
    line.append(value);
    proof {
        reveal_strlit(" ");
    }
    line
}

} // verus!
