//! Decimal rendering of integers and the human-readable form of an elapsed
//! time.

use vstd::prelude::*;
use vstd::string::StringExecFns;

verus! {

/// The decimal digit of `d`, for `0 <= d < 10`.
pub open spec fn digit_char(d: int) -> char {
    if d == 0 {
        '0'
    } else if d == 1 {
        '1'
    } else if d == 2 {
        '2'
    } else if d == 3 {
        '3'
    } else if d == 4 {
        '4'
    } else if d == 5 {
        '5'
    } else if d == 6 {
        '6'
    } else if d == 7 {
        '7'
    } else if d == 8 {
        '8'
    } else {
        '9'
    }
}

/// The decimal form of `n`, without leading zeros.
pub open spec fn decimal(n: nat) -> Seq<char>
    decreases n,
{
    if n < 10 {
        seq![digit_char(n as int)]
    } else {
        decimal(n / 10).push(digit_char((n % 10) as int))
    }
}

/// The decimal form of `v`, with a leading `-` when negative.
pub open spec fn int_text(v: int) -> Seq<char> {
    if v < 0 {
        seq!['-'] + decimal((-v) as nat)
    } else {
        decimal(v as nat)
    }
}

/// `n` as exactly three digits, with leading zeros.
pub open spec fn three_digits(n: nat) -> Seq<char> {
    seq![digit_char((n / 100) as int), digit_char(((n / 10) % 10) as int), digit_char((n % 10) as int)]
}

/// The readable form of an elapsed time of `secs` seconds and `millis`
/// milliseconds: `"{h}h {m}m {s}s"` from one hour on, `"{m}m {s}s"` from one
/// minute on, and `"{s}.{millis:03}s"` below.
pub open spec fn duration_text(secs: nat, millis: nat) -> Seq<char> {
    let h = secs / 3600;
    let m = (secs % 3600) / 60;
    let s = secs % 60;
    if h > 0 {
        decimal(h) + seq!['h', ' '] + decimal(m) + seq!['m', ' '] + decimal(s) + seq!['s']
    } else if m > 0 {
        decimal(m) + seq!['m', ' '] + decimal(s) + seq!['s']
    } else {
        decimal(s) + seq!['.'] + three_digits(millis) + seq!['s']
    }
}

fn digit_str(d: u64) -> (r: &'static str)
    requires
        d < 10,
    ensures
        r@ == seq![digit_char(d as int)],
{
    proof {
        reveal_strlit("0");
        reveal_strlit("1");
        reveal_strlit("2");
        reveal_strlit("3");
        reveal_strlit("4");
        reveal_strlit("5");
        reveal_strlit("6");
        reveal_strlit("7");
        reveal_strlit("8");
        reveal_strlit("9");
    }
    let r = if d == 0 {
        "0"
    } else if d == 1 {
        "1"
    } else if d == 2 {
        "2"
    } else if d == 3 {
        "3"
    } else if d == 4 {
        "4"
    } else if d == 5 {
        "5"
    } else if d == 6 {
        "6"
    } else if d == 7 {
        "7"
    } else if d == 8 {
        "8"
    } else {
        "9"
    };
    assert(r@ =~= seq![digit_char(d as int)]);
    r
}

/// Appends the decimal form of `n` to `s`.
pub fn push_decimal(s: &mut String, n: u64)
    ensures
        final(s)@ == old(s)@ + decimal(n as nat),
    decreases n,
{
    if n >= 10 {
        push_decimal(s, n / 10);
        s.append(digit_str(n % 10));
        assert(old(s)@ + decimal(n as nat) =~= old(s)@ + decimal((n / 10) as nat) + seq![
            digit_char((n % 10) as int),
        ]);
    } else {
        s.append(digit_str(n));
    }
}

/// Appends the decimal form of `v`, signed, to `s`.
pub fn push_int(s: &mut String, v: i32)
    ensures
        final(s)@ == old(s)@ + int_text(v as int),
{
    if v < 0 {
        proof {
            reveal_strlit("-");
        }
        s.append("-");
        let m: u64 = (-(v as i64)) as u64;
        push_decimal(s, m);
        assert(old(s)@ + int_text(v as int) =~= old(s)@ + seq!['-'] + decimal(m as nat));
    } else {
        push_decimal(s, v as u64);
    }
}

/// The readable form of an elapsed time, given as whole seconds and the
/// milliseconds of the second begun.
pub fn format_duration(total_seconds: u64, subsec_millis: u32) -> (r: String)
    requires
        subsec_millis < 1000,
    ensures
        r@ == duration_text(total_seconds as nat, subsec_millis as nat),
{
    let hours = total_seconds / 3600;
    let minutes = (total_seconds % 3600) / 60;
    let seconds = total_seconds % 60;
    proof {
        reveal_strlit("h ");
        reveal_strlit("m ");
        reveal_strlit("s");
        reveal_strlit(".");
    }
    let mut r = String::new();
    if hours > 0 {
        push_decimal(&mut r, hours);
        r.append("h ");
        push_decimal(&mut r, minutes);
        r.append("m ");
        push_decimal(&mut r, seconds);
        r.append("s");
    } else if minutes > 0 {
        push_decimal(&mut r, minutes);
        r.append("m ");
        push_decimal(&mut r, seconds);
        r.append("s");
    } else {
        let ms = subsec_millis as u64;
        push_decimal(&mut r, seconds);
        r.append(".");
        r.append(digit_str(ms / 100));
        r.append(digit_str((ms / 10) % 10));
        r.append(digit_str(ms % 10));
        r.append("s");
    }
    assert(r@ =~= duration_text(total_seconds as nat, subsec_millis as nat));
    r
}

} // verus!
