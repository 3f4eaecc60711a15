//! Number and clock rendering used by list rows and the player status line.
use vstd::prelude::*;

verus! {

/// The character of a decimal digit.
pub open spec fn digit_char(d: nat) -> char {
    if d == 0 {
        '0'
    } else if d == 1 {
        '1'
    } else if d == 2 {
        '2'
    } else if d == 3 {
        '3'
    } else if d == 4 {
        '4'
    } else if d == 5 {
        '5'
    } else if d == 6 {
        '6'
    } else if d == 7 {
        '7'
    } else if d == 8 {
        '8'
    } else {
        '9'
    }
}

/// Decimal notation of a natural number, without leading zeros.
pub open spec fn dec(n: nat) -> Seq<char>
    decreases n,
{
    if n < 10 {
        seq![digit_char(n)]
    } else {
        dec(n / 10).push(digit_char(n % 10))
    }
}

/// Decimal notation padded with one leading zero to at least two characters.
pub open spec fn pad2(n: nat) -> Seq<char> {
    if n < 10 {
        seq!['0', digit_char(n)]
    } else {
        dec(n)
    }
}

/// One field of a clock: a negative field shows its sign and is not padded.
pub open spec fn clock_field(v: nat, negative: bool) -> Seq<char> {
    if negative && v > 0 {
        seq!['-'] + dec(v)
    } else {
        pad2(v)
    }
}

pub open spec fn abs_int(s: int) -> nat {
    if s < 0 {
        (-s) as nat
    } else {
        s as nat
    }
}

/// `hh:mm:ss` for a number of seconds; hours are not bounded, and for a negative
/// count each non-zero field carries the sign, as truncating division gives it.
pub open spec fn clock_text(s: int) -> Seq<char> {
    let a = abs_int(s);
    let neg = s < 0;
    clock_field(a / 3600, neg) + seq![':'] + clock_field((a % 3600) / 60, neg) + seq![':']
        + clock_field(a % 60, neg)
}

pub open spec fn zero_clock() -> Seq<char> {
    seq!['0', '0', ':', '0', '0', ':', '0', '0']
}

fn digit_str(d: u64) -> (r: &'static str)
    requires
        d < 10,
    ensures
        r@ == seq![digit_char(d as nat)],
{
    proof {
        reveal_strlit("0");
        reveal_strlit("1");
        reveal_strlit("2");
        reveal_strlit("3");
        reveal_strlit("4");
        reveal_strlit("5");
        reveal_strlit("6");
        reveal_strlit("7");
        reveal_strlit("8");
        reveal_strlit("9");
    }
    if d == 0 {
        "0"
    } else if d == 1 {
        "1"
    } else if d == 2 {
        "2"
    } else if d == 3 {
        "3"
    } else if d == 4 {
        "4"
    } else if d == 5 {
        "5"
    } else if d == 6 {
        "6"
    } else if d == 7 {
        "7"
    } else if d == 8 {
        "8"
    } else {
        "9"
    }
}

/// Decimal text of `n`.
pub fn decimal(n: u64) -> (r: String)
    ensures
        r@ == dec(n as nat),
    decreases n,
{
    if n < 10 {
        String::from_str(digit_str(n))
    } else {
        let mut s = decimal(n / 10);
        s.append(digit_str(n % 10));
        s
    }
}

/// Decimal text of `n`, with a leading zero below ten.
pub fn padded2(n: u64) -> (r: String)
    ensures
        r@ == pad2(n as nat),
{
    if n < 10 {
        proof {
            reveal_strlit("0");
        }
        let mut s = String::from_str("0");
        s.append(digit_str(n));
        s
    } else {
        decimal(n)
    }
}

fn clock_field_text(v: u64, negative: bool) -> (r: String)
    ensures
        r@ == clock_field(v as nat, negative),
{
    if negative && v > 0 {
        proof {
            reveal_strlit("-");
        }
        let mut s = String::from_str("-");
        let d = decimal(v);
        s.append(d.as_str());
        s
    } else {
        padded2(v)
    }
}

/// Renders a signed number of seconds as `hh:mm:ss`.
pub fn clock(seconds: i64) -> (r: String)
    ensures
        r@ == clock_text(seconds as int),
{
    let negative = seconds < 0;
    let a: u64 = if negative {
        ((-(seconds + 1)) as u64) + 1
    } else {
        seconds as u64
    };
    assert(a as nat == abs_int(seconds as int));
    proof {
        reveal_strlit(":");
    }
    let mut s = clock_field_text(a / 3600, negative);
    s.append(":");
    let m = clock_field_text((a % 3600) / 60, negative);
    s.append(m.as_str());
    s.append(":");
    let sec = clock_field_text(a % 60, negative);
    s.append(sec.as_str());
    s
}

} // verus!
