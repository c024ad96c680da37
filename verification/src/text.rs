//! Decimal numerals and concatenation of text, for the messages that
//! responses carry.

use vstd::prelude::*;
use vstd::string::StringExecFns;

verus! {

/// The character that writes the digit `d`.
pub open spec fn digit_char(d: nat) -> char
    recommends
        d < 10,
{
    if d == 0 {
        '0'
    } else if d == 1 {
        '1'
    } else if d == 2 {
        '2'
    } else if d == 3 {
        '3'
    } else if d == 4 {
        '4'
    } else if d == 5 {
        '5'
    } else if d == 6 {
        '6'
    } else if d == 7 {
        '7'
    } else if d == 8 {
        '8'
    } else {
        '9'
    }
}

/// The decimal numeral of `n`, without sign and without leading zeros.
pub open spec fn decimal(n: nat) -> Seq<char>
    decreases n,
{
    if n < 10 {
        seq![digit_char(n)]
    } else {
        decimal(n / 10).push(digit_char(n % 10))
    }
}

/// The one-character text of the digit `d`.
fn digit_text(d: usize) -> (text: &'static str)
    requires
        d < 10,
    ensures
        text@ == seq![digit_char(d as nat)],
{
    proof {
        reveal_strlit("0");
        reveal_strlit("1");
        reveal_strlit("2");
        reveal_strlit("3");
        reveal_strlit("4");
        reveal_strlit("5");
        reveal_strlit("6");
        reveal_strlit("7");
        reveal_strlit("8");
        reveal_strlit("9");
    }
    let text = if d == 0 {
        "0"
    } else if d == 1 {
        "1"
    } else if d == 2 {
        "2"
    } else if d == 3 {
        "3"
    } else if d == 4 {
        "4"
    } else if d == 5 {
        "5"
    } else if d == 6 {
        "6"
    } else if d == 7 {
        "7"
    } else if d == 8 {
        "8"
    } else {
        "9"
    };
    assert(text@ =~= seq![digit_char(d as nat)]);
    text
}

/// Writes `n` in decimal.
pub fn decimal_string(n: usize) -> (text: String)
    ensures
        text@ == decimal(n as nat),
{
    let mut rest: usize = n / 10;
    let mut text = String::from_str(digit_text(n % 10));
    while rest > 0
        invariant
            rest > 0 ==> decimal(n as nat) == decimal(rest as nat) + text@,
            rest == 0 ==> decimal(n as nat) == text@,
        decreases rest,
    {
        let digit = digit_text(rest % 10);
        proof {
            assert(decimal(rest as nat) + text@ =~= if rest < 10 {
                digit@ + text@
            } else {
                decimal((rest / 10) as nat) + (digit@ + text@)
            });
        }
        text = String::from_str(digit).concat(text.as_str());
        rest = rest / 10;
    }
    text
}

/// `prefix`, then the numeral of `number`, then `middle`, then `tail`.
pub open spec fn numbered(
    prefix: Seq<char>,
    number: nat,
    middle: Seq<char>,
    tail: Seq<char>,
) -> Seq<char> {
    prefix + decimal(number) + middle + tail
}

/// Composes a message around a number: `prefix`, the numeral of `number`,
/// `middle` and `tail`, in this order.
pub fn numbered_message(prefix: &str, number: usize, middle: &str, tail: &str) -> (message: String)
    ensures
        message@ == numbered(prefix@, number as nat, middle@, tail@),
{
    let numeral = decimal_string(number);
    String::from_str(prefix).concat(numeral.as_str()).concat(middle).concat(tail)
}

/// `prefix` followed by `tail`.
pub fn joined(prefix: &str, tail: &str) -> (message: String)
    ensures
        message@ == prefix@ + tail@,
{
    String::from_str(prefix).concat(tail)
}

/// A numeral is never empty and holds digits only.
pub proof fn lemma_decimal_digits(n: nat)
    ensures
        decimal(n).len() >= 1,
        forall|i: int| 0 <= i < decimal(n).len() ==> '0' <= #[trigger] decimal(n)[i] <= '9',
    decreases n,
{
    if n >= 10 {
        lemma_decimal_digits(n / 10);
    }
}

} // verus!
