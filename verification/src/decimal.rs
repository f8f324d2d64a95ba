use vstd::prelude::*;
use vstd::string::StringExecFns;

verus! {

/// The character of a decimal digit.
pub open spec fn digit_char(d: nat) -> char {
    if d == 0 {
        '0'
    } else if d == 1 {
        '1'
    } else if d == 2 {
        '2'
    } else if d == 3 {
        '3'
    } else if d == 4 {
        '4'
    } else if d == 5 {
        '5'
    } else if d == 6 {
        '6'
    } else if d == 7 {
        '7'
    } else if d == 8 {
        '8'
    } else {
        '9'
    }
}

/// The value of a decimal digit character.
pub open spec fn char_digit(c: char) -> nat {
    if c == '0' {
        0
    } else if c == '1' {
        1
    } else if c == '2' {
        2
    } else if c == '3' {
        3
    } else if c == '4' {
        4
    } else if c == '5' {
        5
    } else if c == '6' {
        6
    } else if c == '7' {
        7
    } else if c == '8' {
        8
    } else {
        9
    }
}

/// The decimal representation of a number, without leading zeros.
pub open spec fn decimal(v: nat) -> Seq<char>
    decreases v,
{
    if v < 10 {
        seq![digit_char(v)]
    } else {
        decimal(v / 10).push(digit_char(v % 10))
    }
}

/// The number that a sequence of decimal digits denotes.
pub open spec fn decimal_value(digits: Seq<char>) -> nat
    decreases digits.len(),
{
    if digits.len() == 0 {
        0
    } else {
        decimal_value(digits.drop_last()) * 10 + char_digit(digits.last())
    }
}

/// The decimal representation reads back as the number it was made from.
pub proof fn lemma_decimal_round_trip(v: nat)
    ensures
        decimal_value(decimal(v)) == v,
        decimal(v).len() > 0,
    decreases v,
{
    if v >= 10 {
        lemma_decimal_round_trip(v / 10);
        let d = decimal(v / 10);
        assert(decimal(v).drop_last() =~= d);
        assert(decimal(v).last() == digit_char(v % 10));
        assert(char_digit(digit_char(v % 10)) == v % 10);
        assert((v / 10) * 10 + v % 10 == v) by (nonlinear_arith);
        assert(decimal_value(decimal(v)) == decimal_value(d) * 10 + char_digit(
            digit_char(v % 10),
        ));
    } else {
        assert(char_digit(digit_char(v)) == v);
        assert(decimal(v).drop_last() =~= Seq::<char>::empty());
        assert(decimal_value(decimal(v)) == decimal_value(Seq::<char>::empty()) * 10 + char_digit(
            digit_char(v),
        ));
    }
}

/// Returns the digit string of a number below ten.
fn digit_str(d: u64) -> (r: &'static str)
    requires
        d < 10,
    ensures
        r@ == seq![digit_char(d as nat)],
{
    if d == 0 {
        proof {
            reveal_strlit("0");
        }
        "0"
    } else if d == 1 {
        proof {
            reveal_strlit("1");
        }
        "1"
    } else if d == 2 {
        proof {
            reveal_strlit("2");
        }
        "2"
    } else if d == 3 {
        proof {
            reveal_strlit("3");
        }
        "3"
    } else if d == 4 {
        proof {
            reveal_strlit("4");
        }
        "4"
    } else if d == 5 {
        proof {
            reveal_strlit("5");
        }
        "5"
    } else if d == 6 {
        proof {
            reveal_strlit("6");
        }
        "6"
    } else if d == 7 {
        proof {
            reveal_strlit("7");
        }
        "7"
    } else if d == 8 {
        proof {
            reveal_strlit("8");
        }
        "8"
    } else {
        proof {
            reveal_strlit("9");
        }
        "9"
    }
}

/// Appends the decimal representation of `v` to `out`.
pub fn push_decimal(v: u64, out: &mut String)
    ensures
        final(out)@ == old(out)@ + decimal(v as nat),
    decreases v,
{
    if v >= 10 {
        push_decimal(v / 10, out);
    }
    out.append(digit_str(v % 10));
}

} // verus!
