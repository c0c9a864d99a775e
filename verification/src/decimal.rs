//! Decimal rendering of unsigned integers, used wherever a port, a height or
//! a count becomes part of a command line, an endpoint or a message.

use vstd::prelude::*;

verus! {

/// The character for one decimal digit.
pub open spec fn spec_digit(d: int) -> char {
    if d == 0 {
        '0'
    } else if d == 1 {
        '1'
    } else if d == 2 {
        '2'
    } else if d == 3 {
        '3'
    } else if d == 4 {
        '4'
    } else if d == 5 {
        '5'
    } else if d == 6 {
        '6'
    } else if d == 7 {
        '7'
    } else if d == 8 {
        '8'
    } else {
        '9'
    }
}

/// The decimal rendering of a non-negative integer, most significant digit
/// first, without leading zeros (zero itself renders as one digit).
pub open spec fn dec_str(n: int) -> Seq<char>
    decreases n,
{
    if n < 10 {
        seq![spec_digit(n)]
    } else {
        dec_str(n / 10).push(spec_digit(n % 10))
    }
}

fn digit_str(d: u64) -> (r: &'static str)
    requires
        d < 10,
    ensures
        r@ == seq![spec_digit(d as int)],
{
    proof {
        reveal_strlit("0");
        reveal_strlit("1");
        reveal_strlit("2");
        reveal_strlit("3");
        reveal_strlit("4");
        reveal_strlit("5");
        reveal_strlit("6");
        reveal_strlit("7");
        reveal_strlit("8");
        reveal_strlit("9");
    }
    let r = if d == 0 {
        "0"
    } else if d == 1 {
        "1"
    } else if d == 2 {
        "2"
    } else if d == 3 {
        "3"
    } else if d == 4 {
        "4"
    } else if d == 5 {
        "5"
    } else if d == 6 {
        "6"
    } else if d == 7 {
        "7"
    } else if d == 8 {
        "8"
    } else {
        "9"
    };
    proof {
        assert(r@ =~= seq![spec_digit(d as int)]);
    }
    r
}

/// Renders a number in decimal.
pub fn u64_to_string(n: u64) -> (s: String)
    ensures
        s@ == dec_str(n as int),
{
    let mut acc = String::new();
    let mut m: u64 = n;
    proof {
        assert(dec_str(n as int) =~= dec_str(m as int) + acc@);
    }
    loop
        invariant_except_break
            dec_str(n as int) == dec_str(m as int) + acc@,
        ensures
            acc@ == dec_str(n as int),
        decreases m,
    {
        let d: u64 = m % 10;
        let rest: u64 = m / 10;
        let mut t = digit_str(d).to_owned();
        t.append(acc.as_str());
        proof {
            if m < 10 {
                assert(rest == 0);
                assert(dec_str(m as int) == seq![spec_digit(m as int)]);
                assert(d == m);
                assert(t@ =~= dec_str(m as int) + acc@);
            } else {
                assert(rest >= 1 && rest < m) by (nonlinear_arith)
                    requires
                        m >= 10,
                        rest == m / 10,
                ;
                assert(dec_str(m as int) == dec_str(rest as int).push(spec_digit(d as int)));
                assert(dec_str(rest as int) + t@ =~= dec_str(m as int) + acc@);
            }
        }
        acc = t;
        if rest == 0 {
            proof {
                assert(acc@ =~= dec_str(n as int));
            }
            break ;
        }
        m = rest;
    }
    acc
}

/// Renders a port number in decimal.
pub fn u16_to_string(n: u16) -> (s: String)
    ensures
        s@ == dec_str(n as int),
{
    u64_to_string(n as u64)
}

} // verus!
