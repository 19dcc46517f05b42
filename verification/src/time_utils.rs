//! Durations with whole-second resolution, and their conversion to
//! milliseconds (for scheduling callbacks) and to a `MM:SS` display string.

use vstd::prelude::*;
use vstd::string::StringExecFns;

verus! {

/// A non-negative span of time, counted in whole seconds.
///
/// The timer works at second resolution throughout: configured period
/// lengths, the remaining time of a running phase, and the displayed
/// `MM:SS` text all speak of whole seconds.
#[derive(Clone, Copy, PartialEq, Eq, Structural, Debug)]
pub struct Duration {
    pub seconds: u64,
}

impl Duration {
    /// A duration of exactly `seconds` whole seconds.
    pub fn from_seconds(seconds: u64) -> (d: Duration)
        ensures
            d.seconds == seconds,
    {
        Duration { seconds }
    }
}

/// The character for one decimal digit.
pub open spec fn digit_char(d: int) -> char {
    if d == 0 {
        '0'
    } else if d == 1 {
        '1'
    } else if d == 2 {
        '2'
    } else if d == 3 {
        '3'
    } else if d == 4 {
        '4'
    } else if d == 5 {
        '5'
    } else if d == 6 {
        '6'
    } else if d == 7 {
        '7'
    } else if d == 8 {
        '8'
    } else {
        '9'
    }
}

/// The decimal digits of `n`, most significant first, with no leading zeros
/// (a single `'0'` for zero itself).
pub open spec fn dec_digits(n: nat) -> Seq<char>
    decreases n,
{
    if n < 10 {
        seq![digit_char(n as int)]
    } else {
        dec_digits(n / 10).push(digit_char((n % 10) as int))
    }
}

/// Zero-pad a digit string on the left to a width of at least two.
pub open spec fn pad2(s: Seq<char>) -> Seq<char> {
    if s.len() >= 2 {
        s
    } else {
        seq!['0'] + s
    }
}

/// The `MM:SS` display text for a total number of seconds: minutes
/// (`total / 60`, unbounded width, zero-padded to at least two digits),
/// a colon, then seconds (`total % 60`, always two digits).
pub open spec fn display_string(total: nat) -> Seq<char> {
    pad2(dec_digits(total / 60)) + seq![':'] + pad2(dec_digits(total % 60))
}

/// Convert a duration to milliseconds, for scheduling one-shot and
/// recurring callbacks.
pub fn to_millis(period: Duration) -> (r: u32)
    requires
        period.seconds * 1000 <= u32::MAX,
    ensures
        r == period.seconds * 1000,
{
    (period.seconds * 1000) as u32
}

/// The string slice for one decimal digit.
fn digit_str(d: u64) -> (r: &'static str)
    requires
        d < 10,
    ensures
        r@ == seq![digit_char(d as int)],
{
    let r: &'static str = if d == 0 {
        "0"
    } else if d == 1 {
        "1"
    } else if d == 2 {
        "2"
    } else if d == 3 {
        "3"
    } else if d == 4 {
        "4"
    } else if d == 5 {
        "5"
    } else if d == 6 {
        "6"
    } else if d == 7 {
        "7"
    } else if d == 8 {
        "8"
    } else {
        "9"
    };
    proof {
        reveal_strlit("0");
        reveal_strlit("1");
        reveal_strlit("2");
        reveal_strlit("3");
        reveal_strlit("4");
        reveal_strlit("5");
        reveal_strlit("6");
        reveal_strlit("7");
        reveal_strlit("8");
        reveal_strlit("9");
        assert(r@ =~= seq![digit_char(d as int)]);
    }
    r
}

/// Append the decimal digits of `n` to `s`.
fn push_decimal(s: &mut String, n: u64)
    ensures
        final(s)@ == old(s)@ + dec_digits(n as nat),
    decreases n,
{
    if n >= 10 {
        push_decimal(s, n / 10);
    }
    s.append(digit_str(n % 10));
    proof {
        assert(s@ =~= old(s)@ + dec_digits(n as nat));
    }
}

/// How many digits a decimal rendering has: one for values below ten,
/// two for values from ten up to a hundred, at least two beyond.
pub proof fn lemma_dec_digits_len(n: nat)
    ensures
        dec_digits(n).len() >= 1,
        n < 10 ==> dec_digits(n).len() == 1,
        n >= 10 ==> dec_digits(n).len() >= 2,
        n < 100 ==> dec_digits(n).len() <= 2,
    decreases n,
{
    if n >= 10 {
        lemma_dec_digits_len(n / 10);
    }
}

/// The numeric value of one digit character (meaningful for `'0'`
/// through `'9'`).
pub open spec fn char_digit(c: char) -> nat {
    if c == '0' {
        0
    } else if c == '1' {
        1
    } else if c == '2' {
        2
    } else if c == '3' {
        3
    } else if c == '4' {
        4
    } else if c == '5' {
        5
    } else if c == '6' {
        6
    } else if c == '7' {
        7
    } else if c == '8' {
        8
    } else {
        9
    }
}

/// The numeric value of a string of decimal digits, read most significant
/// first (zero for the empty string).
pub open spec fn digits_value(s: Seq<char>) -> nat
    decreases s.len(),
{
    if s.len() == 0 {
        0
    } else {
        digits_value(s.drop_last()) * 10 + char_digit(s.last())
    }
}

/// Reading the decimal rendering of `n` back as a number gives `n` again.
pub proof fn lemma_dec_digits_value(n: nat)
    ensures
        digits_value(dec_digits(n)) == n,
    decreases n,
{
    if n < 10 {
        assert(dec_digits(n).drop_last() =~= Seq::<char>::empty());
        assert(digits_value(dec_digits(n)) == digits_value(dec_digits(n).drop_last()) * 10
            + char_digit(dec_digits(n).last()));
    } else {
        lemma_dec_digits_value(n / 10);
        assert(dec_digits(n).drop_last() =~= dec_digits(n / 10));
        assert(digits_value(dec_digits(n)) == digits_value(dec_digits(n).drop_last()) * 10
            + char_digit(dec_digits(n).last()));
    }
}

/// A leading zero does not change the value a digit string reads back as.
pub proof fn lemma_leading_zero_value(s: Seq<char>)
    ensures
        digits_value(seq!['0'] + s) == digits_value(s),
    decreases s.len(),
{
    let z = seq!['0'] + s;
    if s.len() == 0 {
        assert(z.len() == 1);
        assert(z.last() == '0');
        assert(z.drop_last() =~= Seq::<char>::empty());
        assert(digits_value(z) == digits_value(z.drop_last()) * 10 + char_digit(z.last()));
        assert(digits_value(Seq::<char>::empty()) == 0);
    } else {
        lemma_leading_zero_value(s.drop_last());
        assert(z.drop_last() =~= seq!['0'] + s.drop_last());
        assert(z.last() == s.last());
        assert(digits_value(z) == digits_value(z.drop_last()) * 10 + char_digit(z.last()));
        assert(digits_value(s) == digits_value(s.drop_last()) * 10 + char_digit(s.last()));
    }
}

/// Zero-padding does not change the value a digit string reads back as.
pub proof fn lemma_pad2_value(s: Seq<char>)
    ensures
        digits_value(pad2(s)) == digits_value(s),
{
    if s.len() < 2 {
        lemma_leading_zero_value(s);
    }
}

/// The display text round-trips: it always has the shape `MM:SS` — at
/// least two minute digits, a colon third from the end, exactly two second
/// digits — and the minutes field reads back as `total / 60`, the seconds
/// field as `total % 60`, so the whole display determines `total`.
pub proof fn lemma_display_round_trip(total: nat)
    ensures
        ({
            let s = display_string(total);
            &&& s.len() >= 5
            &&& s[s.len() - 3] == ':'
            &&& digits_value(s.take(s.len() - 3)) == total / 60
            &&& digits_value(s.skip(s.len() - 2)) == total % 60
            &&& digits_value(s.take(s.len() - 3)) * 60 + digits_value(s.skip(s.len() - 2))
                == total
        }),
{
    let s = display_string(total);
    let m = pad2(dec_digits(total / 60));
    let sec = pad2(dec_digits(total % 60));
    lemma_dec_digits_len(total / 60);
    lemma_dec_digits_len(total % 60);
    assert(sec.len() == 2);
    assert(s.take(s.len() - 3) =~= m);
    assert(s.skip(s.len() - 2) =~= sec);
    lemma_pad2_value(dec_digits(total / 60));
    lemma_pad2_value(dec_digits(total % 60));
    lemma_dec_digits_value(total / 60);
    lemma_dec_digits_value(total % 60);
}

/// Convert a duration to its display text: zero-padded `MM:SS`, where the
/// minutes field grows beyond two digits when the duration calls for it.
/// Negative durations do not arise: a `Duration` is a count of whole
/// seconds.
pub fn to_string(period: Duration) -> (r: String)
    ensures
        r@ == display_string(period.seconds as nat),
{
    let total: u64 = period.seconds;
    let minutes: u64 = total / 60;
    let secs: u64 = total % 60;
    let mut r = String::new();
    if minutes < 10 {
        r.append("0");
    }
    push_decimal(&mut r, minutes);
    r.append(":");
    if secs < 10 {
        r.append("0");
    }
    push_decimal(&mut r, secs);
    proof {
        reveal_strlit("0");
        reveal_strlit(":");
        lemma_dec_digits_len(minutes as nat);
        lemma_dec_digits_len(secs as nat);
        assert(r@ =~= display_string(total as nat));
    }
    r
}

} // verus!
