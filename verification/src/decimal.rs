//! Rendering integers as decimal text, with an exact character-level model.

use vstd::prelude::*;
use vstd::string::StringExecFns;

verus! {

/// The decimal digit character for `d` (meaningful for `d < 10`).
pub open spec fn digit_char(d: nat) -> char {
    if d == 0 {
        '0'
    } else if d == 1 {
        '1'
    } else if d == 2 {
        '2'
    } else if d == 3 {
        '3'
    } else if d == 4 {
        '4'
    } else if d == 5 {
        '5'
    } else if d == 6 {
        '6'
    } else if d == 7 {
        '7'
    } else if d == 8 {
        '8'
    } else {
        '9'
    }
}

/// The decimal rendering of a natural number: most significant digit first,
/// no leading zero except for the number zero itself.
pub open spec fn dec_model(n: nat) -> Seq<char>
    decreases n,
{
    if n < 10 {
        seq![digit_char(n)]
    } else {
        dec_model(n / 10).push(digit_char(n % 10))
    }
}

/// The decimal rendering of an integer: a leading minus sign for negative
/// values.
pub open spec fn dec_model_int(v: int) -> Seq<char> {
    if v < 0 {
        seq!['-'] + dec_model((-v) as nat)
    } else {
        dec_model(v as nat)
    }
}

/// Whether `c` is a decimal digit character.
pub open spec fn is_digit(c: char) -> bool {
    c == '0' || c == '1' || c == '2' || c == '3' || c == '4' || c == '5' || c == '6' || c == '7'
        || c == '8' || c == '9'
}

/// Every character of a decimal rendering is a digit.
pub proof fn lemma_dec_model_digits(n: nat)
    ensures
        forall|i: int| 0 <= i < dec_model(n).len() ==> is_digit(#[trigger] dec_model(n)[i]),
    decreases n,
{
    if n < 10 {
        assert(dec_model(n)[0] == digit_char(n));
    } else {
        lemma_dec_model_digits(n / 10);
        assert forall|i: int| 0 <= i < dec_model(n).len() implies is_digit(dec_model(n)[i]) by {
            if i < dec_model(n).len() - 1 {
                assert(dec_model(n)[i] == dec_model(n / 10)[i]);
            } else {
                assert(dec_model(n)[i] == digit_char(n % 10));
            }
        }
    }
}

/// The one-character string for the digit `d`.
fn digit_str(d: u64) -> (r: &'static str)
    requires
        d < 10,
    ensures
        r@ == seq![digit_char(d as nat)],
{
    proof {
        reveal_strlit("0");
        reveal_strlit("1");
        reveal_strlit("2");
        reveal_strlit("3");
        reveal_strlit("4");
        reveal_strlit("5");
        reveal_strlit("6");
        reveal_strlit("7");
        reveal_strlit("8");
        reveal_strlit("9");
    }
    let r = if d == 0 {
        "0"
    } else if d == 1 {
        "1"
    } else if d == 2 {
        "2"
    } else if d == 3 {
        "3"
    } else if d == 4 {
        "4"
    } else if d == 5 {
        "5"
    } else if d == 6 {
        "6"
    } else if d == 7 {
        "7"
    } else if d == 8 {
        "8"
    } else {
        "9"
    };
    proof {
        assert(r@ =~= seq![digit_char(d as nat)]);
    }
    r
}

/// Renders `n` in decimal.
pub fn u64_to_dec(n: u64) -> (r: String)
    ensures
        r@ == dec_model(n as nat),
    decreases n,
{
    if n < 10 {
        String::from_str(digit_str(n))
    } else {
        let prefix = u64_to_dec(n / 10);
        let r = prefix.concat(digit_str(n % 10));
        proof {
            assert(r@ =~= dec_model(n as nat));
        }
        r
    }
}

/// Renders `v` in decimal, with a minus sign when it is negative.
pub fn i64_to_dec(v: i64) -> (r: String)
    ensures
        r@ == dec_model_int(v as int),
{
    if v >= 0 {
        u64_to_dec(v as u64)
    } else {
        let magnitude: u64 = ((-(v + 1)) as u64) + 1;
        proof {
            assert(magnitude as int == -(v as int));
            reveal_strlit("-");
        }
        let digits = u64_to_dec(magnitude);
        let r = String::from_str("-").concat(digits.as_str());
        proof {
            assert("-"@ =~= seq!['-']);
        }
        r
    }
}

} // verus!
