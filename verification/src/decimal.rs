//! Whole numbers written out in decimal.

use vstd::prelude::*;
use vstd::string::*;

verus! {

/// The character that stands for a digit from 0 to 9.
pub open spec fn digit_char(digit: nat) -> char
    recommends
        digit < 10,
{
    seq!['0', '1', '2', '3', '4', '5', '6', '7', '8', '9'][digit as int]
}

/// The decimal digits of a natural number, most significant first, with no
/// leading zero; zero is written `0`.
pub open spec fn digits(n: nat) -> Seq<char>
    decreases n,
{
    if n < 10 {
        seq![digit_char(n)]
    } else {
        digits(n / 10).push(digit_char(n % 10))
    }
}

/// A whole number in decimal: its digits, after a `-` if it is negative.
pub open spec fn decimal(n: int) -> Seq<char> {
    if n < 0 {
        seq!['-'] + digits((-n) as nat)
    } else {
        digits(n as nat)
    }
}

/// The digits that are still to be written in front of those already taken
/// off the low end: none once nothing is left of the number.
spec fn leading(rest: nat) -> Seq<char> {
    if rest == 0 {
        Seq::empty()
    } else {
        digits(rest)
    }
}

/// The characters for digits that were collected lowest first.
spec fn written(low: Seq<u32>) -> Seq<char> {
    Seq::new(low.len(), |i: int| digit_char(low[low.len() - 1 - i] as nat))
}

/// Taking one more digit off the low end leaves the whole text unchanged.
proof fn lemma_take_low_digit(rest: nat, low: Seq<u32>)
    requires
        rest > 0,
    ensures
        leading(rest / 10) + written(low.push((rest % 10) as u32)) =~= leading(rest) + written(low),
{
}

/// The one-character text of a digit.
fn digit_text(digit: u32) -> (text: &'static str)
    requires
        digit < 10,
    ensures
        text@ == seq![digit_char(digit as nat)],
{
    proof {
        reveal_strlit("0");
        reveal_strlit("1");
        reveal_strlit("2");
        reveal_strlit("3");
        reveal_strlit("4");
        reveal_strlit("5");
        reveal_strlit("6");
        reveal_strlit("7");
        reveal_strlit("8");
        reveal_strlit("9");
    }
    if digit == 0 {
        "0"
    } else if digit == 1 {
        "1"
    } else if digit == 2 {
        "2"
    } else if digit == 3 {
        "3"
    } else if digit == 4 {
        "4"
    } else if digit == 5 {
        "5"
    } else if digit == 6 {
        "6"
    } else if digit == 7 {
        "7"
    } else if digit == 8 {
        "8"
    } else {
        "9"
    }
}

/// Writes a number out in decimal.
pub fn render(n: i32) -> (text: String)
    ensures
        text@ == decimal(n as int),
{
    let mut text = String::new();
    let magnitude: u32 = if n < 0 {
        proof {
            reveal_strlit("-");
        }
        text.append("-");
        (-(n + 1)) as u32 + 1
    } else {
        n as u32
    };
    let ghost sign = text@;
    let mut low: Vec<u32> = Vec::new();
    low.push(magnitude % 10);
    let mut rest: u32 = magnitude / 10;
    while rest > 0
        invariant
            low@.len() > 0,
            forall|i: int| 0 <= i < low@.len() ==> low@[i] < 10,
            digits(magnitude as nat) == leading(rest as nat) + written(low@),
        decreases rest,
    {
        proof {
            lemma_take_low_digit(rest as nat, low@);
        }
        low.push(rest % 10);
        rest = rest / 10;
    }
    let mut left: usize = low.len();
    while left > 0
        invariant
            left <= low@.len(),
            forall|i: int| 0 <= i < low@.len() ==> low@[i] < 10,
            text@ == sign + written(low@).subrange(0, low@.len() - left),
        decreases left,
    {
        left -= 1;
        text.append(digit_text(low[left]));
    }
    text
}

} // verus!
