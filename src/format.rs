//! Text for the progress line: two-digit fields and `mm:ss` durations.
use vstd::prelude::*;
use vstd::string::StringExecFns;

verus! {

/// The decimal digit character for `d` (0 to 9).
pub open spec fn digit_char(d: nat) -> char {
    if d == 0 {
        '0'
    } else if d == 1 {
        '1'
    } else if d == 2 {
        '2'
    } else if d == 3 {
        '3'
    } else if d == 4 {
        '4'
    } else if d == 5 {
        '5'
    } else if d == 6 {
        '6'
    } else if d == 7 {
        '7'
    } else if d == 8 {
        '8'
    } else {
        '9'
    }
}

/// The decimal digits of `n`, most significant first, without leading zeros.
pub open spec fn decimal_digits(n: nat) -> Seq<char>
    decreases n,
{
    if n < 10 {
        seq![digit_char(n)]
    } else {
        decimal_digits(n / 10).push(digit_char(n % 10))
    }
}

/// How `to_string` writes the integer `n`: a minus sign for a negative one.
pub open spec fn decimal(n: int) -> Seq<char> {
    if n < 0 {
        seq!['-'] + decimal_digits((-n) as nat)
    } else {
        decimal_digits(n as nat)
    }
}

/// Quotient of `n` by `d`, rounded toward zero.
pub open spec fn trunc_div(n: int, d: int) -> int {
    if n >= 0 {
        n / d
    } else {
        -((-n) / d)
    }
}

/// Remainder of `n` by `d` with the sign of `n`.
pub open spec fn trunc_rem(n: int, d: int) -> int {
    if n >= 0 {
        n % d
    } else {
        -((-n) % d)
    }
}

/// The text `format_two_digit_int` gives for `n`: the Euclidean quotient by
/// ten, then the remainder (with the sign of `n`).
pub open spec fn spec_two_digit(n: int) -> Seq<char> {
    decimal(n / 10) + decimal(trunc_rem(n, 10))
}

/// The text `format_duration` gives for `ms` milliseconds.
pub open spec fn spec_duration_text(ms: int) -> Seq<char> {
    let secs = trunc_div(ms, 1000);
    spec_two_digit(trunc_div(secs, 60)) + seq![':'] + spec_two_digit(trunc_rem(secs, 60))
}

fn digit_str(d: u64) -> (r: &'static str)
    requires
        d < 10,
    ensures
        r@ == seq![digit_char(d as nat)],
{
    proof {
        reveal_strlit("0");
        reveal_strlit("1");
        reveal_strlit("2");
        reveal_strlit("3");
        reveal_strlit("4");
        reveal_strlit("5");
        reveal_strlit("6");
        reveal_strlit("7");
        reveal_strlit("8");
        reveal_strlit("9");
    }
    if d == 0 {
        "0"
    } else if d == 1 {
        "1"
    } else if d == 2 {
        "2"
    } else if d == 3 {
        "3"
    } else if d == 4 {
        "4"
    } else if d == 5 {
        "5"
    } else if d == 6 {
        "6"
    } else if d == 7 {
        "7"
    } else if d == 8 {
        "8"
    } else {
        "9"
    }
}

fn append_digits(s: &mut String, n: u64)
    ensures
        final(s)@ == old(s)@ + decimal_digits(n as nat),
    decreases n,
{
    if n >= 10 {
        append_digits(s, n / 10);
    }
    s.append(digit_str(n % 10));
    proof {
        assert(final(s)@ =~= old(s)@ + decimal_digits(n as nat));
    }
}

/// `n` in decimal, as `to_string` writes it.
pub(crate) fn append_decimal(s: &mut String, n: i64)
    ensures
        final(s)@ == old(s)@ + decimal(n as int),
{
    if n < 0 {
        proof {
            reveal_strlit("-");
        }
        s.append("-");
        let magnitude: u64 = (0 - (n as i128)) as u64;
        append_digits(s, magnitude);
        assert(final(s)@ =~= old(s)@ + decimal(n as int));
    } else {
        append_digits(s, n as u64);
    }
}

/// The Euclidean quotient of `number` by ten followed by its remainder, each
/// in decimal: two digits for 0 to 99.
pub fn format_two_digit_int(number: i64) -> (r: String)
    ensures
        r@ == spec_two_digit(number as int),
{
    let n: i128 = number as i128;
    let tens: i128;
    let ones: i128;
    if n >= 0 {
        tens = n / 10;
        ones = n % 10;
    } else {
        let m: i128 = 0 - n;
        let q: i128 = m / 10;
        let rem: i128 = m % 10;
        ones = 0 - rem;
        tens = if rem == 0 {
            0 - q
        } else {
            0 - q - 1
        };
        assert(tens == n / 10) by (nonlinear_arith)
            requires
                m == -n,
                m > 0,
                q == m / 10,
                rem == m % 10,
                tens == (if rem == 0 { -q } else { -q - 1 }),
        {}
    }
    let mut r = String::new();
    append_decimal(&mut r, tens as i64);
    append_decimal(&mut r, ones as i64);
    assert(r@ =~= spec_two_digit(number as int));
    r
}

/// A duration of `ms` milliseconds as minutes and seconds, `mm:ss`, both
/// counted toward zero.
pub fn format_duration(ms: i64) -> (r: String)
    ensures
        r@ == spec_duration_text(ms as int),
{
    let n: i128 = ms as i128;
    let secs: i128 = if n >= 0 {
        n / 1000
    } else {
        0 - ((0 - n) / 1000)
    };
    let minutes: i128 = if secs >= 0 {
        secs / 60
    } else {
        0 - ((0 - secs) / 60)
    };
    let seconds: i128 = if secs >= 0 {
        secs % 60
    } else {
        0 - ((0 - secs) % 60)
    };
    let mut r = format_two_digit_int(minutes as i64);
    proof {
        reveal_strlit(":");
    }
    r.append(":");
    let tail = format_two_digit_int(seconds as i64);
    r.append(tail.as_str());
    assert(r@ =~= spec_duration_text(ms as int));
    r
}

} // verus!
