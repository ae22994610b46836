//! Small text building blocks: decimal digits and concatenation.

use vstd::prelude::*;
use vstd::string::StringExecFns;

verus! {

/// The character of a decimal digit.
pub open spec fn digit_char(d: nat) -> char
    recommends
        d < 10,
{
    seq!['0', '1', '2', '3', '4', '5', '6', '7', '8', '9'][d as int]
}

/// The decimal digits of `n`, most significant first, without leading zeros.
pub open spec fn decimal(n: nat) -> Seq<char>
    decreases n,
{
    if n < 10 {
        seq![digit_char(n)]
    } else {
        decimal(n / 10).push(digit_char(n % 10))
    }
}

fn digit_str(d: u16) -> (r: &'static str)
    requires
        d < 10,
    ensures
        r@ == seq![digit_char(d as nat)],
{
    proof {
        reveal_strlit("0");
        reveal_strlit("1");
        reveal_strlit("2");
        reveal_strlit("3");
        reveal_strlit("4");
        reveal_strlit("5");
        reveal_strlit("6");
        reveal_strlit("7");
        reveal_strlit("8");
        reveal_strlit("9");
    }
    match d {
        0 => "0",
        1 => "1",
        2 => "2",
        3 => "3",
        4 => "4",
        5 => "5",
        6 => "6",
        7 => "7",
        8 => "8",
        _ => "9",
    }
}

/// The digits of `n` that precede those already written, and nothing for 0.
spec fn leading_digits(n: nat) -> Seq<char> {
    if n == 0 {
        Seq::empty()
    } else {
        decimal(n)
    }
}

/// `n` written in decimal.
pub fn decimal_text(n: u16) -> (r: String)
    ensures
        r@ == decimal(n as nat),
{
    let mut acc = digit_str(n % 10).to_owned();
    let mut rest: u16 = n / 10;
    assert(decimal(n as nat) == leading_digits(rest as nat) + acc@) by {
        if n < 10 {
            assert(leading_digits(rest as nat) + acc@ =~= acc@);
        }
    }
    while rest > 0
        invariant
            decimal(n as nat) == leading_digits(rest as nat) + acc@,
        decreases rest,
    {
        let d = digit_str(rest % 10);
        let ghost old_acc = acc@;
        assert(decimal(rest as nat) == leading_digits((rest / 10) as nat) + seq![
            digit_char((rest % 10) as nat),
        ]) by {
            if rest < 10 {
                assert(leading_digits((rest / 10) as nat) + seq![digit_char((rest % 10) as nat)]
                    =~= seq![digit_char((rest % 10) as nat)]);
            }
        }
        acc = d.to_owned().concat(acc.as_str());
        rest = rest / 10;
        assert(decimal(n as nat) =~= leading_digits(rest as nat) + acc@);
    }
    assert(acc@ =~= leading_digits(rest as nat) + acc@);
    acc
}

} // verus!
