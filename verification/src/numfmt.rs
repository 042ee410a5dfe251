//! Decimal rendering of the non-negative integers that appear inside
//! marker strings and IPC commands.
use vstd::prelude::*;

use vstd::string::StringExecFns;

verus! {

/// The character for one decimal digit.
pub open spec fn spec_digit_char(d: nat) -> char
    recommends
        d < 10,
{
    ((48 + d) as u8) as char
}

/// The decimal rendering of `x`, most significant digit first, without
/// leading zeros (a single zero for `x == 0`).
pub open spec fn spec_udec(x: nat) -> Seq<char>
    decreases x,
{
    if x < 10 {
        seq![spec_digit_char(x)]
    } else {
        spec_udec(x / 10) + seq![spec_digit_char(x % 10)]
    }
}

/// One decimal digit as a string slice.
fn digit_str(d: u128) -> (s: &'static str)
    requires
        d < 10,
    ensures
        s@ == seq![spec_digit_char(d as nat)],
{
    proof {
        reveal_strlit("0");
        reveal_strlit("1");
        reveal_strlit("2");
        reveal_strlit("3");
        reveal_strlit("4");
        reveal_strlit("5");
        reveal_strlit("6");
        reveal_strlit("7");
        reveal_strlit("8");
        reveal_strlit("9");
    }
    let s = match d {
        0 => "0",
        1 => "1",
        2 => "2",
        3 => "3",
        4 => "4",
        5 => "5",
        6 => "6",
        7 => "7",
        8 => "8",
        _ => "9",
    };
    proof {
        assert(s@ =~= seq![spec_digit_char(d as nat)]);
    }
    s
}

/// Render `x` in decimal.
pub fn u128_to_dec(x: u128) -> (s: String)
    ensures
        s@ == spec_udec(x as nat),
    decreases x,
{
    if x < 10 {
        String::from_str(digit_str(x))
    } else {
        let q = x / 10;
        let r = x % 10;
        proof {
            assert(q < x) by (nonlinear_arith)
                requires
                    10 <= x,
                    q == x / 10,
            ;
        }
        let mut s = u128_to_dec(q);
        s.append(digit_str(r));
        proof {
            assert(s@ =~= spec_udec(x as nat));
        }
        s
    }
}

} // verus!
