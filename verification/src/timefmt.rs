//! Display strings for durations and clock times, as the presentation layer
//! shows them: minutes-and-seconds for durations, `HH:MM:SS` for instants.
//! Instants and durations are milliseconds, as everywhere in this crate.

use vstd::prelude::*;
use vstd::string::StringExecFns;

verus! {

/// The decimal digit character for `d`.
pub open spec fn spec_digit(d: int) -> char {
    if d == 0 {
        '0'
    } else if d == 1 {
        '1'
    } else if d == 2 {
        '2'
    } else if d == 3 {
        '3'
    } else if d == 4 {
        '4'
    } else if d == 5 {
        '5'
    } else if d == 6 {
        '6'
    } else if d == 7 {
        '7'
    } else if d == 8 {
        '8'
    } else {
        '9'
    }
}

/// The decimal digits of `n`, most significant first, without leading
/// zeroes (a single zero for zero).
pub open spec fn spec_dec(n: nat) -> Seq<char>
    decreases n,
{
    if n < 10 {
        seq![spec_digit(n as int)]
    } else {
        spec_dec(n / 10).push(spec_digit((n % 10) as int))
    }
}

/// `n` zero-padded to two decimal digits.
pub open spec fn spec_two_digits(n: nat) -> Seq<char> {
    seq![spec_digit((n / 10) as int), spec_digit((n % 10) as int)]
}

/// A duration of `ms` milliseconds as whole minutes and leftover seconds,
/// for example `2m 5s`.
pub open spec fn spec_duration_str(ms: u64) -> Seq<char> {
    spec_dec((ms / 1000 / 60) as nat) + seq!['m', ' '] + spec_dec((ms / 1000 % 60) as nat) + seq![
        's',
    ]
}

/// An instant of `ms` milliseconds since the Unix epoch as its UTC time of
/// day, `HH:MM:SS`.
pub open spec fn spec_digital_time(ms: u64) -> Seq<char> {
    spec_two_digits((ms / 1000 / 3600 % 24) as nat) + seq![':'] + spec_two_digits(
        (ms / 1000 / 60 % 60) as nat,
    ) + seq![':'] + spec_two_digits((ms / 1000 % 60) as nat)
}

fn digit_str(d: u64) -> (r: &'static str)
    requires
        d < 10,
    ensures
        r@ == seq![spec_digit(d as int)],
{
    let r = match d {
        0 => "0",
        1 => "1",
        2 => "2",
        3 => "3",
        4 => "4",
        5 => "5",
        6 => "6",
        7 => "7",
        8 => "8",
        _ => "9",
    };
    proof {
        reveal_strlit("0");
        reveal_strlit("1");
        reveal_strlit("2");
        reveal_strlit("3");
        reveal_strlit("4");
        reveal_strlit("5");
        reveal_strlit("6");
        reveal_strlit("7");
        reveal_strlit("8");
        reveal_strlit("9");
        assert(r@ =~= seq![spec_digit(d as int)]);
    }
    r
}

/// `n` in decimal.
pub fn u64_dec(n: u64) -> (s: String)
    ensures
        s@ == spec_dec(n as nat),
    decreases n,
{
    if n < 10 {
        String::from_str(digit_str(n))
    } else {
        let mut s = u64_dec(n / 10);
        s.append(digit_str(n % 10));
        proof {
            assert(s@ =~= spec_dec(n as nat));
        }
        s
    }
}

fn two_digits(n: u64) -> (s: String)
    requires
        n < 100,
    ensures
        s@ == spec_two_digits(n as nat),
{
    let mut s = String::from_str(digit_str(n / 10));
    s.append(digit_str(n % 10));
    proof {
        assert(s@ =~= spec_two_digits(n as nat));
    }
    s
}

/// A duration of `ms` milliseconds as `<minutes>m <seconds>s`.
pub fn duration_str(ms: u64) -> (s: String)
    ensures
        s@ == spec_duration_str(ms),
{
    let total_seconds = ms / 1000;
    let minutes = total_seconds / 60;
    let seconds = total_seconds % 60;

    let mut s = u64_dec(minutes);
    s.append("m ");
    let sec = u64_dec(seconds);
    s.append(sec.as_str());
    s.append("s");
    proof {
        reveal_strlit("m ");
        reveal_strlit("s");
        assert(s@ =~= spec_duration_str(ms));
    }
    s
}

/// An instant as its UTC time of day, `HH:MM:SS`.
pub fn digital_time(ms: u64) -> (s: String)
    ensures
        s@ == spec_digital_time(ms),
{
    let total_seconds = ms / 1000;
    let hours = total_seconds / 3600 % 24;
    let minutes = total_seconds / 60 % 60;
    let seconds = total_seconds % 60;

    let mut s = two_digits(hours);
    s.append(":");
    let m = two_digits(minutes);
    s.append(m.as_str());
    s.append(":");
    let sec = two_digits(seconds);
    s.append(sec.as_str());
    proof {
        reveal_strlit(":");
        assert(s@ =~= spec_digital_time(ms));
    }
    s
}

} // verus!
