use vstd::prelude::*;

verus! {

/// The character of the decimal digit `d` (`0 <= d < 10`).
pub open spec fn digit_char(d: int) -> char {
    if d == 0 {
        '0'
    } else if d == 1 {
        '1'
    } else if d == 2 {
        '2'
    } else if d == 3 {
        '3'
    } else if d == 4 {
        '4'
    } else if d == 5 {
        '5'
    } else if d == 6 {
        '6'
    } else if d == 7 {
        '7'
    } else if d == 8 {
        '8'
    } else {
        '9'
    }
}

/// The decimal digits of `n`, without leading zeros.
pub open spec fn digits(n: nat) -> Seq<char>
    decreases n,
{
    if n < 10 {
        seq![digit_char(n as int)]
    } else {
        digits(n / 10).push(digit_char((n % 10) as int))
    }
}

/// The shortest decimal text of the fixed-point number `v / 100`: a minus
/// sign for negatives, the whole part, then a point and the fractional
/// digits without trailing zeros, if any are not zero (`-40` gives `-0.4`,
/// `1100` gives `11`, `5` gives `0.05`).
pub open spec fn decimal_text(v: int) -> Seq<char> {
    let a: int = if v < 0 { -v } else { v };
    let sign: Seq<char> = if v < 0 { seq!['-'] } else { Seq::empty() };
    let whole = digits((a / 100) as nat);
    let f = a % 100;
    if f == 0 {
        sign + whole
    } else if f % 10 == 0 {
        sign + whole + seq!['.', digit_char(f / 10)]
    } else {
        sign + whole + seq!['.', digit_char(f / 10), digit_char(f % 10)]
    }
}

/// The day of month that an ISO-8601 timestamp names (its characters 8 and
/// 9), or `??` where the text is too short to hold one.
pub open spec fn day_of(ts: Seq<char>) -> Seq<char> {
    if ts.len() >= 10 {
        ts.subrange(8, 10)
    } else {
        seq!['?', '?']
    }
}

fn digit_str(d: u64) -> (r: &'static str)
    requires
        d < 10,
    ensures
        r@ == seq![digit_char(d as int)],
{
    proof {
        reveal_strlit("0");
        reveal_strlit("1");
        reveal_strlit("2");
        reveal_strlit("3");
        reveal_strlit("4");
        reveal_strlit("5");
        reveal_strlit("6");
        reveal_strlit("7");
        reveal_strlit("8");
        reveal_strlit("9");
    }
    if d == 0 {
        "0"
    } else if d == 1 {
        "1"
    } else if d == 2 {
        "2"
    } else if d == 3 {
        "3"
    } else if d == 4 {
        "4"
    } else if d == 5 {
        "5"
    } else if d == 6 {
        "6"
    } else if d == 7 {
        "7"
    } else if d == 8 {
        "8"
    } else {
        "9"
    }
}

fn push_digits(s: &mut String, n: u64)
    ensures
        final(s)@ == old(s)@ + digits(n as nat),
    decreases n,
{
    if n >= 10 {
        push_digits(s, n / 10);
    }
    s.append(digit_str(n % 10));
    proof {
        if n >= 10 {
            assert(old(s)@ + digits((n / 10) as nat) + seq![digit_char((n % 10) as int)]
                =~= old(s)@ + digits(n as nat));
        } else {
            assert(n % 10 == n);
        }
    }
}

/// Writes the whole number `n` in decimal.
pub fn format_count(n: usize) -> (r: String)
    ensures
        r@ == digits(n as nat),
{
    let mut s = String::new();
    push_digits(&mut s, n as u64);
    proof {
        assert(s@ =~= digits(n as nat));
    }
    s
}

/// Writes the fixed-point number `v / 100` as the shortest decimal text.
pub fn format_hundredths(v: i64) -> (r: String)
    ensures
        r@ == decimal_text(v as int),
{
    let a: u64 = if v < 0 { (0 - (v as i128)) as u64 } else { v as u64 };
    let mut s = String::new();
    if v < 0 {
        proof { reveal_strlit("-"); }
        s.append("-");
    }
    push_digits(&mut s, a / 100);
    let f: u64 = a % 100;
    if f != 0 {
        proof { reveal_strlit("."); }
        s.append(".");
        s.append(digit_str(f / 10));
        if f % 10 != 0 {
            s.append(digit_str(f % 10));
        }
    }
    proof {
        let sign: Seq<char> = if v < 0 { seq!['-'] } else { Seq::empty() };
        let whole = digits((a / 100) as nat);
        if f == 0 {
            assert(s@ =~= sign + whole);
        } else if f % 10 == 0 {
            assert(s@ =~= sign + whole + seq!['.', digit_char((f / 10) as int)]);
        } else {
            assert(s@ =~= sign + whole + seq!['.', digit_char((f / 10) as int), digit_char((f % 10) as int)]);
        }
    }
    s
}

/// The two-digit day of month of an ISO-8601 timestamp (`2023-11-10T08:00`
/// gives `10`), or `??` where the text is shorter than a date.
pub fn day_label(ts: &str) -> (r: String)
    ensures
        r@ == day_of(ts@),
{
    if ts.unicode_len() >= 10 {
        String::from_str(ts.substring_char(8, 10))
    } else {
        proof { reveal_strlit("??"); }
        String::from_str("??")
    }
}

} // verus!
