use crate::params::opt_str_view;
use vstd::prelude::*;

verus! {

/// The decimal digit character for a value between 0 and 9.
pub open spec fn digit_char(d: int) -> char {
    if d == 0 {
        '0'
    } else if d == 1 {
        '1'
    } else if d == 2 {
        '2'
    } else if d == 3 {
        '3'
    } else if d == 4 {
        '4'
    } else if d == 5 {
        '5'
    } else if d == 6 {
        '6'
    } else if d == 7 {
        '7'
    } else if d == 8 {
        '8'
    } else {
        '9'
    }
}

/// The canonical decimal rendering of a non-negative integer: most
/// significant digit first, no leading zeroes, `0` rendered as one digit.
pub open spec fn dec_of(n: nat) -> Seq<char>
    decreases n,
{
    if n < 10 {
        seq![digit_char(n as int)]
    } else {
        dec_of(n / 10) + seq![digit_char((n % 10) as int)]
    }
}

fn digit_str(d: u64) -> (r: &'static str)
    requires
        d < 10,
    ensures
        r@ == seq![digit_char(d as int)],
{
    if d == 0 {
        proof {
            reveal_strlit("0");
            assert("0"@ =~= seq![digit_char(0int)]);
        }
        "0"
    } else if d == 1 {
        proof {
            reveal_strlit("1");
            assert("1"@ =~= seq![digit_char(1int)]);
        }
        "1"
    } else if d == 2 {
        proof {
            reveal_strlit("2");
            assert("2"@ =~= seq![digit_char(2int)]);
        }
        "2"
    } else if d == 3 {
        proof {
            reveal_strlit("3");
            assert("3"@ =~= seq![digit_char(3int)]);
        }
        "3"
    } else if d == 4 {
        proof {
            reveal_strlit("4");
            assert("4"@ =~= seq![digit_char(4int)]);
        }
        "4"
    } else if d == 5 {
        proof {
            reveal_strlit("5");
            assert("5"@ =~= seq![digit_char(5int)]);
        }
        "5"
    } else if d == 6 {
        proof {
            reveal_strlit("6");
            assert("6"@ =~= seq![digit_char(6int)]);
        }
        "6"
    } else if d == 7 {
        proof {
            reveal_strlit("7");
            assert("7"@ =~= seq![digit_char(7int)]);
        }
        "7"
    } else if d == 8 {
        proof {
            reveal_strlit("8");
            assert("8"@ =~= seq![digit_char(8int)]);
        }
        "8"
    } else {
        proof {
            reveal_strlit("9");
            assert("9"@ =~= seq![digit_char(9int)]);
        }
        "9"
    }
}

/// Render an unsigned integer in decimal, as arguments are rendered when
/// they become query-parameter values.
pub fn u64_to_dec(n: u64) -> (r: String)
    ensures
        r@ == dec_of(n as nat),
    decreases n,
{
    if n < 10 {
        String::from_str(digit_str(n))
    } else {
        let mut r = u64_to_dec(n / 10);
        r.append(digit_str(n % 10));
        proof {
            assert((n as nat) / 10 == (n / 10) as nat);
            assert((n as nat) % 10 == (n % 10) as nat);
        }
        r
    }
}

/// The rendering of an optional 32-bit argument: absent stays absent.
pub open spec fn opt_dec_of_u32(n: Option<u32>) -> Option<Seq<char>> {
    match n {
        Option::Some(v) => Option::Some(dec_of(v as nat)),
        Option::None => Option::None,
    }
}

/// The rendering of an optional 64-bit argument: absent stays absent.
pub open spec fn opt_dec_of_u64(n: Option<u64>) -> Option<Seq<char>> {
    match n {
        Option::Some(v) => Option::Some(dec_of(v as nat)),
        Option::None => Option::None,
    }
}

/// Render an optional 32-bit argument as an optional decimal value.
pub fn opt_u32_to_dec(n: Option<u32>) -> (r: Option<String>)
    ensures
        opt_str_view(r) == opt_dec_of_u32(n),
{
    match n {
        Some(v) => Some(u64_to_dec(v as u64)),
        None => None,
    }
}

/// Render an optional 64-bit argument as an optional decimal value.
pub fn opt_u64_to_dec(n: Option<u64>) -> (r: Option<String>)
    ensures
        opt_str_view(r) == opt_dec_of_u64(n),
{
    match n {
        Some(v) => Some(u64_to_dec(v)),
        None => None,
    }
}

/// The rendering of a boolean query-parameter value.
pub open spec fn bool_str_of(b: bool) -> Seq<char> {
    if b {
        "true"@
    } else {
        "false"@
    }
}

/// Render a boolean as its wire form, `true` or `false`.
pub fn bool_to_str(b: bool) -> (r: String)
    ensures
        r@ == bool_str_of(b),
{
    if b {
        String::from_str("true")
    } else {
        String::from_str("false")
    }
}

/// The rendering of an optional boolean argument: absent stays absent.
pub open spec fn opt_bool_str_of(b: Option<bool>) -> Option<Seq<char>> {
    match b {
        Option::Some(v) => Option::Some(bool_str_of(v)),
        Option::None => Option::None,
    }
}

/// Render an optional boolean argument as an optional wire value.
pub fn opt_bool_to_str(b: Option<bool>) -> (r: Option<String>)
    ensures
        opt_str_view(r) == opt_bool_str_of(b),
{
    match b {
        Some(v) => Some(bool_to_str(v)),
        None => None,
    }
}

} // verus!
