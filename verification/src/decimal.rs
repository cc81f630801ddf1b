//! Decimal rendering of counters and timestamps.

use vstd::prelude::*;
use vstd::string::StringExecFns;

verus! {

/// The character for one decimal digit.
pub open spec fn dec_char(d: int) -> char {
    if d == 0 {
        '0'
    } else if d == 1 {
        '1'
    } else if d == 2 {
        '2'
    } else if d == 3 {
        '3'
    } else if d == 4 {
        '4'
    } else if d == 5 {
        '5'
    } else if d == 6 {
        '6'
    } else if d == 7 {
        '7'
    } else if d == 8 {
        '8'
    } else {
        '9'
    }
}

/// The decimal numeral of `n`, most significant digit first, without leading
/// zeroes (the numeral of zero is "0").
pub open spec fn dec_str(n: int) -> Seq<char>
    decreases n,
{
    if n < 10 {
        seq![dec_char(n)]
    } else {
        dec_str(n / 10).push(dec_char(n % 10))
    }
}

/// The one-character string for one decimal digit.
fn dec_digit_str(d: u64) -> (r: &'static str)
    requires
        d < 10,
    ensures
        r@ == seq![dec_char(d as int)],
{
    let r: &'static str = if d == 0 {
        proof {
            reveal_strlit("0");
        }
        "0"
    } else if d == 1 {
        proof {
            reveal_strlit("1");
        }
        "1"
    } else if d == 2 {
        proof {
            reveal_strlit("2");
        }
        "2"
    } else if d == 3 {
        proof {
            reveal_strlit("3");
        }
        "3"
    } else if d == 4 {
        proof {
            reveal_strlit("4");
        }
        "4"
    } else if d == 5 {
        proof {
            reveal_strlit("5");
        }
        "5"
    } else if d == 6 {
        proof {
            reveal_strlit("6");
        }
        "6"
    } else if d == 7 {
        proof {
            reveal_strlit("7");
        }
        "7"
    } else if d == 8 {
        proof {
            reveal_strlit("8");
        }
        "8"
    } else {
        proof {
            reveal_strlit("9");
        }
        "9"
    };
    proof {
        assert(r@ =~= seq![dec_char(d as int)]);
    }
    r
}

/// Render `n` as its decimal numeral.
pub fn u64_to_dec_string(n: u64) -> (r: String)
    ensures
        r@ == dec_str(n as int),
{
    if n < 10 {
        return dec_digit_str(n).to_owned();
    }
    let mut k: u64 = n;
    let mut r = String::new();
    while k >= 10
        invariant
            1 <= k <= n,
            dec_str(n as int) == dec_str(k as int) + r@,
        decreases k,
    {
        let d = k % 10;
        let mut piece = dec_digit_str(d).to_owned();
        piece.append(r.as_str());
        proof {
            assert(dec_str(k as int) == dec_str(k as int / 10).push(dec_char(k as int % 10)));
            assert(dec_str(k as int / 10).push(dec_char(k as int % 10)) + r@ =~= dec_str(
                k as int / 10,
            ) + piece@);
            assert(k as int / 10 == (k / 10) as int);
        }
        r = piece;
        k = k / 10;
    }
    let mut out = dec_digit_str(k).to_owned();
    proof {
        assert(dec_str(k as int) =~= out@);
    }
    out.append(r.as_str());
    out
}

} // verus!
