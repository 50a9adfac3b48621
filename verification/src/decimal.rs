use vstd::prelude::*;

verus! {

/// The character for one decimal digit.
pub open spec fn digit_char(d: nat) -> char {
    if d == 0 {
        '0'
    } else if d == 1 {
        '1'
    } else if d == 2 {
        '2'
    } else if d == 3 {
        '3'
    } else if d == 4 {
        '4'
    } else if d == 5 {
        '5'
    } else if d == 6 {
        '6'
    } else if d == 7 {
        '7'
    } else if d == 8 {
        '8'
    } else {
        '9'
    }
}

/// The decimal representation of a natural number: most significant digit
/// first, no leading zeroes except for the single digit of zero itself.
pub open spec fn decimal_chars(n: nat) -> Seq<char>
    decreases n,
{
    if n < 10 {
        seq![digit_char(n)]
    } else {
        decimal_chars(n / 10) + seq![digit_char(n % 10)]
    }
}

fn digit_str(d: u8) -> (s: &'static str)
    requires
        d < 10,
    ensures
        s@ == seq![digit_char(d as nat)],
{
    proof {
        reveal_strlit("0");
        reveal_strlit("1");
        reveal_strlit("2");
        reveal_strlit("3");
        reveal_strlit("4");
        reveal_strlit("5");
        reveal_strlit("6");
        reveal_strlit("7");
        reveal_strlit("8");
        reveal_strlit("9");
    }
    if d == 0 {
        "0"
    } else if d == 1 {
        "1"
    } else if d == 2 {
        "2"
    } else if d == 3 {
        "3"
    } else if d == 4 {
        "4"
    } else if d == 5 {
        "5"
    } else if d == 6 {
        "6"
    } else if d == 7 {
        "7"
    } else if d == 8 {
        "8"
    } else {
        "9"
    }
}

fn push_decimal(n: u128, s: &mut String)
    ensures
        final(s)@ == old(s)@ + decimal_chars(n as nat),
    decreases n,
{
    if n >= 10 {
        push_decimal(n / 10, s);
    }
    s.append(digit_str((n % 10) as u8));
    proof {
        if n < 10 {
            assert(n % 10 == n);
        }
        assert(s@ =~= old(s)@ + decimal_chars(n as nat));
    }
}

/// The decimal string of an unsigned integer.
pub fn u128_decimal(n: u128) -> (s: String)
    ensures
        s@ == decimal_chars(n as nat),
{
    let mut s = String::new();
    push_decimal(n, &mut s);
    proof {
        assert(s@ =~= decimal_chars(n as nat));
    }
    s
}

/// The decimal string of a 32-bit unsigned integer.
pub fn u32_decimal(n: u32) -> (s: String)
    ensures
        s@ == decimal_chars(n as nat),
{
    u128_decimal(n as u128)
}

/// A non-negative quantity held in hundredths, written with two decimal
/// places: the whole part, a point, then exactly two digits.
pub open spec fn centi_chars(x: nat) -> Seq<char> {
    decimal_chars(x / 100) + seq!['.', digit_char((x / 10) % 10), digit_char(x % 10)]
}

/// Writes a quantity held in hundredths with two decimal places.
pub fn u128_centi(x: u128) -> (s: String)
    ensures
        s@ == centi_chars(x as nat),
{
    let mut s = u128_decimal(x / 100);
    proof {
        reveal_strlit(".");
    }
    s.append(".");
    s.append(digit_str(((x / 10) % 10) as u8));
    s.append(digit_str((x % 10) as u8));
    proof {
        assert(s@ =~= centi_chars(x as nat));
    }
    s
}

} // verus!
