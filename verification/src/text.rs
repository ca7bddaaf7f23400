//! Verified text building: the decimal form of an integer, used wherever a
//! number is spliced into a request path or a message.

use vstd::prelude::*;

verus! {

/// The character of one decimal digit.
pub open spec fn spec_digit_char(d: int) -> char {
    if d == 0 {
        '0'
    } else if d == 1 {
        '1'
    } else if d == 2 {
        '2'
    } else if d == 3 {
        '3'
    } else if d == 4 {
        '4'
    } else if d == 5 {
        '5'
    } else if d == 6 {
        '6'
    } else if d == 7 {
        '7'
    } else if d == 8 {
        '8'
    } else {
        '9'
    }
}

/// The decimal form of a number: no sign, no leading zero but for the number
/// zero itself.
pub open spec fn spec_decimal(n: int) -> Seq<char>
    decreases n,
{
    if n < 10 {
        seq![spec_digit_char(n)]
    } else {
        spec_decimal(n / 10).push(spec_digit_char(n % 10))
    }
}

/// The one-character string of one decimal digit.
fn digit_str(d: u64) -> (r: &'static str)
    requires
        d < 10,
    ensures
        r@ =~= seq![spec_digit_char(d as int)],
{
    proof {
        reveal_strlit("0");
        reveal_strlit("1");
        reveal_strlit("2");
        reveal_strlit("3");
        reveal_strlit("4");
        reveal_strlit("5");
        reveal_strlit("6");
        reveal_strlit("7");
        reveal_strlit("8");
        reveal_strlit("9");
    }
    if d == 0 {
        "0"
    } else if d == 1 {
        "1"
    } else if d == 2 {
        "2"
    } else if d == 3 {
        "3"
    } else if d == 4 {
        "4"
    } else if d == 5 {
        "5"
    } else if d == 6 {
        "6"
    } else if d == 7 {
        "7"
    } else if d == 8 {
        "8"
    } else {
        "9"
    }
}

/// The digits of a digit stack read backwards, as characters.
spec fn spec_rev_chars(ds: Seq<u64>) -> Seq<char> {
    Seq::new(ds.len(), |i: int| spec_digit_char(ds[ds.len() - 1 - i] as int))
}

/// Writes a number in decimal.
pub fn decimal_string(n: u64) -> (r: String)
    ensures
        r@ == spec_decimal(n as int),
{
    // collect the digits, least significant first
    let mut digits: Vec<u64> = Vec::new();
    let mut m = n;
    loop
        invariant_except_break
            m > 0 ==> spec_decimal(n as int) =~= spec_decimal(m as int) + spec_rev_chars(digits@),
            m == 0 ==> digits@.len() == 0 && n == 0,
        invariant
            forall|i: int| 0 <= i < digits@.len() ==> #[trigger] digits@[i] < 10,
        ensures
            spec_decimal(n as int) =~= spec_rev_chars(digits@),
            digits@.len() > 0,
            forall|i: int| 0 <= i < digits@.len() ==> #[trigger] digits@[i] < 10,
        decreases m,
    {
        let ghost pre = digits@;
        let ghost m0 = m as int;
        let d = m % 10;
        digits.push(d);
        proof {
            assert(spec_rev_chars(digits@) =~= seq![spec_digit_char(m0 % 10)] + spec_rev_chars(
                pre,
            ));
        }
        m = m / 10;
        if m == 0 {
            proof {
                if m0 == 0 {
                    // the number zero: its one digit is the zero digit
                    assert(spec_decimal(n as int) =~= seq![spec_digit_char(0)]);
                    assert(spec_rev_chars(digits@) =~= seq![spec_digit_char(0)]);
                } else {
                    assert(spec_decimal(m0) =~= seq![spec_digit_char(m0 % 10)]);
                    assert(spec_decimal(n as int) =~= spec_rev_chars(digits@));
                }
            }
            break;
        }
        proof {
            assert(spec_decimal(m0) =~= spec_decimal(m0 / 10).push(spec_digit_char(m0 % 10)));
            assert(spec_decimal(m0 / 10).push(spec_digit_char(m0 % 10)) =~= spec_decimal(m0 / 10)
                + seq![spec_digit_char(m0 % 10)]);
            assert(spec_decimal(m as int) + spec_rev_chars(digits@) =~= (spec_decimal(m0 / 10)
                + seq![spec_digit_char(m0 % 10)]) + spec_rev_chars(pre));
            assert(spec_decimal(n as int) =~= spec_decimal(m as int) + spec_rev_chars(digits@));
        }
    }
    // write them out, most significant first
    let mut r = String::new();
    let mut idx = digits.len();
    while idx > 0
        invariant
            idx <= digits@.len(),
            forall|i: int| 0 <= i < digits@.len() ==> #[trigger] digits@[i] < 10,
            r@ =~= spec_rev_chars(digits@).take(digits@.len() - idx),
        decreases idx,
    {
        idx = idx - 1;
        let ghost before = r@;
        r.append(digit_str(digits[idx]));
        proof {
            assert(r@ =~= spec_rev_chars(digits@).take(digits@.len() - idx));
        }
    }
    proof {
        assert(r@ =~= spec_rev_chars(digits@));
    }
    r
}

} // verus!
