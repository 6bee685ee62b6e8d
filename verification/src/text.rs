//! Decimal rendering of counts and indices, and the fallback labels built from
//! them.
use vstd::prelude::*;
use vstd::string::StringExecFns;

verus! {

broadcast use vstd::string::to_string_from_display_ensures_for_str;

/// The character of decimal digit `d`.
pub open spec fn digit_char(d: nat) -> char {
    if d == 0 {
        '0'
    } else if d == 1 {
        '1'
    } else if d == 2 {
        '2'
    } else if d == 3 {
        '3'
    } else if d == 4 {
        '4'
    } else if d == 5 {
        '5'
    } else if d == 6 {
        '6'
    } else if d == 7 {
        '7'
    } else if d == 8 {
        '8'
    } else {
        '9'
    }
}

/// The decimal digits of `n`, most significant first, without leading zeros.
pub open spec fn decimal_spec(n: nat) -> Seq<char>
    decreases n,
{
    if n < 10 {
        seq![digit_char(n)]
    } else {
        decimal_spec(n / 10).push(digit_char(n % 10))
    }
}

/// The number written by a string of decimal digits, most significant first.
pub open spec fn digits_value(s: Seq<char>) -> int
    decreases s.len(),
{
    if s.len() == 0 {
        0
    } else {
        digits_value(s.drop_last()) * 10 + (s.last() as int - '0' as int)
    }
}

/// `n` is written with at least one character, every one a decimal digit, the
/// first not a `0` unless `n` is 0, and the digits read back as `n`.
pub proof fn law_decimal(n: nat)
    ensures
        decimal_spec(n).len() >= 1,
        forall|i: int|
            0 <= i < decimal_spec(n).len() ==> '0' as int <= #[trigger] decimal_spec(n)[i] as int
                <= '9' as int,
        n > 0 ==> decimal_spec(n)[0] != '0',
        digits_value(decimal_spec(n)) == n,
    decreases n,
{
    let s = decimal_spec(n);
    if n < 10 {
        assert(s.drop_last() =~= Seq::<char>::empty());
        assert(digit_char(n) as int == '0' as int + n);
        assert(digits_value(Seq::<char>::empty()) == 0);
        assert(s.last() == digit_char(n));
        assert(digits_value(s) == digits_value(s.drop_last()) * 10 + (s.last() as int - '0' as int));
    } else {
        law_decimal(n / 10);
        let p = decimal_spec(n / 10);
        let d = (n % 10) as nat;
        assert(digit_char(d) as int == '0' as int + d);
        assert(s.drop_last() =~= p);
        assert(s.last() == digit_char(d));
        assert(digits_value(s) == digits_value(p) * 10 + d);
        assert((n / 10) * 10 + d == n);
        assert(s[0] == p[0]);
        assert forall|i: int| 0 <= i < s.len() implies '0' as int <= #[trigger] s[i] as int <= '9' as int by {
            if i < s.len() - 1 {
                assert(s[i] == p[i]);
            }
        }
    }
}

fn digit_str(d: usize) -> (s: &'static str)
    requires
        d < 10,
    ensures
        s@ == seq![digit_char(d as nat)],
{
    if d == 0 {
        proof {
            reveal_strlit("0");
        }
        "0"
    } else if d == 1 {
        proof {
            reveal_strlit("1");
        }
        "1"
    } else if d == 2 {
        proof {
            reveal_strlit("2");
        }
        "2"
    } else if d == 3 {
        proof {
            reveal_strlit("3");
        }
        "3"
    } else if d == 4 {
        proof {
            reveal_strlit("4");
        }
        "4"
    } else if d == 5 {
        proof {
            reveal_strlit("5");
        }
        "5"
    } else if d == 6 {
        proof {
            reveal_strlit("6");
        }
        "6"
    } else if d == 7 {
        proof {
            reveal_strlit("7");
        }
        "7"
    } else if d == 8 {
        proof {
            reveal_strlit("8");
        }
        "8"
    } else {
        proof {
            reveal_strlit("9");
        }
        "9"
    }
}

/// `n` written in decimal.
pub fn decimal(n: usize) -> (s: String)
    ensures
        s@ == decimal_spec(n as nat),
    decreases n,
{
    if n < 10 {
        digit_str(n).to_string()
    } else {
        let mut s = decimal(n / 10);
        s.append(digit_str(n % 10));
        s
    }
}

/// `prefix` followed by `n` in decimal.
pub fn prefixed_decimal(prefix: &str, n: usize) -> (s: String)
    ensures
        s@ == prefix@ + decimal_spec(n as nat),
{
    let mut s = prefix.to_string();
    let d = decimal(n);
    s.append(d.as_str());
    s
}

} // verus!
