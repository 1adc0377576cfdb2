//! Pure computations behind each rendered frame: the countdown until the
//! date, the status phrase keyed by the hours left, and the decorative
//! backdrop text selected by the pattern offset.

use vstd::prelude::*;
use vstd::string::StringExecFns;

verus! {

/// Seconds remaining until `target`, floored at zero once the target has
/// passed.
pub open spec fn spec_remaining(now: i64, target: i64) -> int {
    if now < target {
        target - now
    } else {
        0
    }
}

/// Split the time remaining until `target` into whole hours, and the
/// leftover minutes and seconds, never negative: exactly zero once the
/// target has passed.
pub fn countdown(now: i64, target: i64) -> (r: (i64, i64, i64))
    ensures
        r.0 == spec_remaining(now, target) / 3600,
        r.1 == (spec_remaining(now, target) / 60) % 60,
        r.2 == spec_remaining(now, target) % 60,
        now >= target ==> r == (0i64, 0i64, 0i64),
        r.0 >= 0,
        0 <= r.1 < 60,
        0 <= r.2 < 60,
{
    if now < target {
        let rem: i128 = target as i128 - now as i128;
        let hours: i64 = (rem / 3600) as i64;
        let minutes: i64 = ((rem / 60) % 60) as i64;
        let seconds: i64 = (rem % 60) as i64;
        (hours, minutes, seconds)
    } else {
        (0i64, 0i64, 0i64)
    }
}

/// The status phrase shown under the countdown, keyed by the whole hours
/// remaining: an urgent nudge inside the last hour, a day-of note up to
/// sixteen hours, a holiday greeting up to forty, and nothing otherwise.
pub fn status_phrase(hours: i64) -> (r: &'static str)
    ensures
        hours < 1 ==> r@ == "Hurry up cracker!!!"@,
        16 < hours && hours < 40 ==> r@ == "Happy Valentines Day!"@,
        1 < hours && hours <= 16 ==> r@ == "Date today!"@,
        hours == 1 || hours >= 40 ==> r@ == ""@,
{
    if hours < 1 {
        "Hurry up cracker!!!"
    } else if hours < 40 && hours > 16 {
        "Happy Valentines Day!"
    } else if hours <= 16 && hours > 1 {
        "Date today!"
    } else {
        ""
    }
}

/// `s` repeated `n` times.
pub open spec fn spec_repeat(s: Seq<char>, n: nat) -> Seq<char>
    decreases n,
{
    if n == 0 {
        Seq::empty()
    } else {
        spec_repeat(s, (n - 1) as nat) + s
    }
}

/// Build the repetition of `s` that `spec_repeat` describes.
pub fn repeat_str(s: &str, n: usize) -> (r: String)
    ensures
        r@ == spec_repeat(s@, n as nat),
{
    let mut out = String::new();
    let mut i: usize = 0;
    proof {
        assert(out@ =~= spec_repeat(s@, 0));
    }
    while i < n
        invariant
            i <= n,
            out@ == spec_repeat(s@, i as nat),
        decreases n - i,
    {
        out.append(s);
        i = i + 1;
    }
    out
}

/// The phrase the decorative backdrop is woven from, one per pattern offset:
/// the full endearment, two shorter ones, and a bare heart.
pub open spec fn spec_backdrop_phrase(offset: u8) -> Seq<char> {
    if offset == 1 {
        "My Lovely Lady My Love <3 "@
    } else if offset == 2 {
        "My Love <3 "@
    } else if offset == 3 {
        " <3 "@
    } else {
        "My Valentine My Lovely Lady My Love <3 "@
    }
}

/// How often the phrase is repeated to fill the screen: the prompt screen
/// uses the denser fill, and the bare-heart pattern needs more copies of its
/// shorter phrase either way.
pub open spec fn spec_backdrop_count(offset: u8, dense: bool) -> nat {
    if offset == 3 {
        if dense {
            900
        } else {
            500
        }
    } else {
        if dense {
            500
        } else {
            300
        }
    }
}

/// The full decorative backdrop text for a pattern offset; `dense` selects
/// the heavier fill used behind the main prompt.
pub fn backdrop_text(offset: u8, dense: bool) -> (r: String)
    ensures
        r@ == spec_repeat(spec_backdrop_phrase(offset), spec_backdrop_count(offset, dense)),
{
    let phrase: &'static str = if offset == 1 {
        "My Lovely Lady My Love <3 "
    } else if offset == 2 {
        "My Love <3 "
    } else if offset == 3 {
        " <3 "
    } else {
        "My Valentine My Lovely Lady My Love <3 "
    };
    let count: usize = if offset == 3 {
        if dense {
            900
        } else {
            500
        }
    } else {
        if dense {
            500
        } else {
            300
        }
    };
    repeat_str(phrase, count)
}

/// The decimal digit for a value below ten.
pub open spec fn spec_digit_char(d: int) -> char {
    if d == 0 {
        '0'
    } else if d == 1 {
        '1'
    } else if d == 2 {
        '2'
    } else if d == 3 {
        '3'
    } else if d == 4 {
        '4'
    } else if d == 5 {
        '5'
    } else if d == 6 {
        '6'
    } else if d == 7 {
        '7'
    } else if d == 8 {
        '8'
    } else {
        '9'
    }
}

/// The decimal digits of a nonnegative number, most significant first.
pub open spec fn spec_decimal(n: int) -> Seq<char>
    decreases n,
{
    if n < 10 {
        seq![spec_digit_char(n)]
    } else {
        spec_decimal(n / 10) + seq![spec_digit_char(n % 10)]
    }
}

/// A number in decimal, padded with a leading zero to at least two digits.
pub open spec fn spec_padded(n: int) -> Seq<char> {
    if 0 <= n < 10 {
        seq!['0'] + spec_decimal(n)
    } else {
        spec_decimal(n)
    }
}

/// A clock-style reading of hours, minutes and seconds, each padded to two
/// digits, separated by colons.
pub open spec fn spec_hms(h: int, m: int, s: int) -> Seq<char> {
    spec_padded(h) + seq![':'] + spec_padded(m) + seq![':'] + spec_padded(s)
}

/// One decimal digit as text.
fn digit_str(d: u64) -> (r: &'static str)
    requires
        d < 10,
    ensures
        r@ == seq![spec_digit_char(d as int)],
{
    proof {
        reveal_strlit("0");
        reveal_strlit("1");
        reveal_strlit("2");
        reveal_strlit("3");
        reveal_strlit("4");
        reveal_strlit("5");
        reveal_strlit("6");
        reveal_strlit("7");
        reveal_strlit("8");
        reveal_strlit("9");
        assert("0"@ =~= seq!['0']);
        assert("1"@ =~= seq!['1']);
        assert("2"@ =~= seq!['2']);
        assert("3"@ =~= seq!['3']);
        assert("4"@ =~= seq!['4']);
        assert("5"@ =~= seq!['5']);
        assert("6"@ =~= seq!['6']);
        assert("7"@ =~= seq!['7']);
        assert("8"@ =~= seq!['8']);
        assert("9"@ =~= seq!['9']);
    }
    if d == 0 {
        "0"
    } else if d == 1 {
        "1"
    } else if d == 2 {
        "2"
    } else if d == 3 {
        "3"
    } else if d == 4 {
        "4"
    } else if d == 5 {
        "5"
    } else if d == 6 {
        "6"
    } else if d == 7 {
        "7"
    } else if d == 8 {
        "8"
    } else {
        "9"
    }
}

/// A number written in decimal.
pub fn decimal_string(n: u64) -> (r: String)
    ensures
        r@ == spec_decimal(n as int),
    decreases n,
{
    if n < 10 {
        let mut out = String::new();
        out.append(digit_str(n));
        proof {
            assert(out@ =~= spec_decimal(n as int));
        }
        out
    } else {
        let mut out = decimal_string(n / 10);
        out.append(digit_str(n % 10));
        out
    }
}

/// A number written in decimal, padded with a leading zero to at least two
/// digits.
pub fn padded_decimal(n: u64) -> (r: String)
    ensures
        r@ == spec_padded(n as int),
{
    if n < 10 {
        let mut out = String::new();
        out.append("0");
        out.append(digit_str(n));
        proof {
            reveal_strlit("0");
            assert("0"@ =~= seq!['0']);
            assert(out@ =~= spec_padded(n as int));
        }
        out
    } else {
        decimal_string(n)
    }
}

/// Format hours, minutes and seconds as a clock-style reading.
pub fn format_hms(hours: i64, minutes: i64, seconds: i64) -> (r: String)
    requires
        hours >= 0,
        minutes >= 0,
        seconds >= 0,
    ensures
        r@ == spec_hms(hours as int, minutes as int, seconds as int),
{
    let mut out = padded_decimal(hours as u64);
    out.append(":");
    let m = padded_decimal(minutes as u64);
    out.append(m.as_str());
    out.append(":");
    let s = padded_decimal(seconds as u64);
    out.append(s.as_str());
    proof {
        reveal_strlit(":");
        assert(":"@ =~= seq![':']);
        assert(out@ =~= spec_hms(hours as int, minutes as int, seconds as int));
    }
    out
}

/// The countdown display: the time remaining until `target`, floored at
/// zero, as an hours:minutes:seconds reading.
pub fn countdown_text(now: i64, target: i64) -> (r: String)
    ensures
        r@ == spec_hms(
            spec_remaining(now, target) / 3600,
            (spec_remaining(now, target) / 60) % 60,
            spec_remaining(now, target) % 60,
        ),
{
    let (h, m, s) = countdown(now, target);
    format_hms(h, m, s)
}

} // verus!

