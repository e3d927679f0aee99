//! Decimal text of unsigned numbers.

use vstd::prelude::*;
use vstd::string::*;

verus! {

/// The ten decimal digits in order.
pub open spec fn digit_chars() -> Seq<char> {
    seq!['0', '1', '2', '3', '4', '5', '6', '7', '8', '9']
}

/// The decimal digits of `n`, most significant first, without leading
/// zeros; a single `0` for zero.
pub open spec fn decimal_text(n: nat) -> Seq<char>
    decreases n,
{
    if n < 10 {
        seq![digit_chars()[n as int]]
    } else {
        decimal_text(n / 10) + seq![digit_chars()[(n % 10) as int]]
    }
}

/// The digit `d` as a one-character string.
fn digit_name(d: u64) -> (name: &'static str)
    requires
        d < 10,
    ensures
        name@ == seq![digit_chars()[d as int]],
{
    proof {
        reveal_strlit("0");
        reveal_strlit("1");
        reveal_strlit("2");
        reveal_strlit("3");
        reveal_strlit("4");
        reveal_strlit("5");
        reveal_strlit("6");
        reveal_strlit("7");
        reveal_strlit("8");
        reveal_strlit("9");
    }
    let name = match d {
        0 => "0",
        1 => "1",
        2 => "2",
        3 => "3",
        4 => "4",
        5 => "5",
        6 => "6",
        7 => "7",
        8 => "8",
        _ => "9",
    };
    assert(name@ =~= seq![digit_chars()[d as int]]);
    name
}

/// The decimal text of `n`.
pub fn decimal_string(n: u64) -> (text: String)
    ensures
        text@ == decimal_text(n as nat),
{
    let mut text = String::from_str(digit_name(n % 10));
    let mut rest: u64 = n / 10;
    while rest > 0
        invariant
            decimal_text(n as nat) == if rest > 0 {
                decimal_text(rest as nat) + text@
            } else {
                text@
            },
        decreases rest,
    {
        let ghost before = text@;
        text = String::from_str(digit_name(rest % 10)).concat(text.as_str());
        assert(text@ == seq![digit_chars()[(rest % 10) as int]] + before);
        assert(decimal_text((rest / 10) as nat) + text@ =~= decimal_text((rest / 10) as nat)
            + seq![digit_chars()[(rest % 10) as int]] + before);
        rest = rest / 10;
    }
    text
}

} // verus!
