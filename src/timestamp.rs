use vstd::prelude::*;

verus! {

/// Seconds in one year bucket: 365 days, whatever the calendar year.
pub const SECS_PER_YEAR: u64 = 31536000;

/// Seconds in one month bucket: 30 days, whatever the calendar month.
pub const SECS_PER_MONTH: u64 = 2592000;

pub const SECS_PER_DAY: u64 = 86400;

pub const SECS_PER_HOUR: u64 = 3600;

pub const SECS_PER_MINUTE: u64 = 60;

/// The character of a decimal digit.
pub open spec fn digit_char(d: nat) -> char {
    if d == 0 {
        '0'
    } else if d == 1 {
        '1'
    } else if d == 2 {
        '2'
    } else if d == 3 {
        '3'
    } else if d == 4 {
        '4'
    } else if d == 5 {
        '5'
    } else if d == 6 {
        '6'
    } else if d == 7 {
        '7'
    } else if d == 8 {
        '8'
    } else {
        '9'
    }
}

/// The decimal digits of `n`, without leading zeros (`0` is written `0`).
pub open spec fn decimal(n: nat) -> Seq<char>
    decreases n,
{
    if n < 10 {
        seq![digit_char(n)]
    } else {
        decimal(n / 10).push(digit_char(n % 10))
    }
}

/// `n` in decimal, with zeros in front up to `width` characters; longer numbers are kept whole.
pub open spec fn zero_padded(n: nat, width: nat) -> Seq<char> {
    let d = decimal(n);
    if d.len() >= width {
        d
    } else {
        Seq::new((width - d.len()) as nat, |i: int| '0') + d
    }
}

pub open spec fn is_digit(c: char) -> bool {
    c == '0' || c == '1' || c == '2' || c == '3' || c == '4' || c == '5' || c == '6' || c == '7'
        || c == '8' || c == '9'
}

/// `s` is exactly `width` decimal digits.
pub open spec fn digits_of_width(s: Seq<char>, width: nat) -> bool {
    s.len() == width && forall|i: int| 0 <= i < width ==> is_digit(#[trigger] s[i])
}

proof fn lemma_decimal_digits(n: nat)
    ensures
        forall|i: int| 0 <= i < decimal(n).len() ==> is_digit(#[trigger] decimal(n)[i]),
        n < 10 ==> decimal(n).len() == 1,
        n < 100 ==> decimal(n).len() <= 2,
        n < 1000 ==> decimal(n).len() <= 3,
        n < 10000 ==> decimal(n).len() <= 4,
    decreases n,
{
    if n >= 10 {
        lemma_decimal_digits(n / 10);
        let front = decimal(n / 10);
        assert forall|i: int| 0 <= i < decimal(n).len() implies is_digit(#[trigger] decimal(n)[i]) by {
            if i < front.len() {
                assert(decimal(n)[i] == front[i]);
            }
        }
    }
}

proof fn lemma_padded_width(n: nat, width: nat)
    requires
        decimal(n).len() <= width,
    ensures
        digits_of_width(zero_padded(n, width), width),
{
    lemma_decimal_digits(n);
    let d = decimal(n);
    let pad = Seq::new((width - d.len()) as nat, |i: int| '0');
    assert(zero_padded(n, width) == pad + d);
    assert forall|i: int| 0 <= i < width implies is_digit(#[trigger] zero_padded(n, width)[i]) by {
        if i >= pad.len() {
            assert(zero_padded(n, width)[i] == d[i - pad.len()]);
        }
    }
}

/// The parts of a timestamp: seconds since the epoch cut into fixed buckets of
/// 365-day years and 30-day months. This is not a calendar date: the buckets drift
/// from the calendar (leap days, months of 28 or 31 days), and the month runs to 13.
#[derive(Clone, Copy, Debug, PartialEq, Eq, Structural)]
pub struct Stamp {
    pub year: u64,
    pub month: u64,
    pub day: u64,
    pub hour: u64,
    pub minute: u64,
    pub second: u64,
}

pub open spec fn year_of(secs: nat) -> nat {
    1970 + secs / (SECS_PER_YEAR as nat)
}

pub open spec fn month_of(secs: nat) -> nat {
    1 + (secs % (SECS_PER_YEAR as nat)) / (SECS_PER_MONTH as nat)
}

pub open spec fn day_of(secs: nat) -> nat {
    1 + (secs % (SECS_PER_YEAR as nat)) % (SECS_PER_MONTH as nat) / (SECS_PER_DAY as nat)
}

pub open spec fn hour_of(secs: nat) -> nat {
    (secs % (SECS_PER_YEAR as nat)) % (SECS_PER_MONTH as nat) % (SECS_PER_DAY as nat) / (
    SECS_PER_HOUR as nat)
}

pub open spec fn minute_of(secs: nat) -> nat {
    (secs % (SECS_PER_YEAR as nat)) % (SECS_PER_MONTH as nat) % (SECS_PER_DAY as nat) % (
    SECS_PER_HOUR as nat) / (SECS_PER_MINUTE as nat)
}

pub open spec fn second_of(secs: nat) -> nat {
    (secs % (SECS_PER_YEAR as nat)) % (SECS_PER_MONTH as nat) % (SECS_PER_DAY as nat) % (
    SECS_PER_HOUR as nat) % (SECS_PER_MINUTE as nat)
}

/// The text `YYYY-MM-DD_HH-MM-SS` of the bucketed parts of `secs`.
pub open spec fn timestamp_text(secs: nat) -> Seq<char> {
    zero_padded(year_of(secs), 4) + seq!['-'] + zero_padded(month_of(secs), 2) + seq!['-']
        + zero_padded(day_of(secs), 2) + seq!['_'] + zero_padded(hour_of(secs), 2) + seq!['-']
        + zero_padded(minute_of(secs), 2) + seq!['-'] + zero_padded(second_of(secs), 2)
}

/// While the year has four digits, a timestamp is `YYYY-MM-DD_HH-MM-SS` exactly:
/// nineteen characters, each field its full width in digits. The buckets give
/// months 1 to 13 and days 1 to 30, not calendar ones.
pub proof fn lemma_timestamp_shape(secs: nat)
    requires
        year_of(secs) < 10000,
    ensures
        timestamp_text(secs).len() == 19,
        digits_of_width(zero_padded(year_of(secs), 4), 4),
        digits_of_width(zero_padded(month_of(secs), 2), 2),
        digits_of_width(zero_padded(day_of(secs), 2), 2),
        digits_of_width(zero_padded(hour_of(secs), 2), 2),
        digits_of_width(zero_padded(minute_of(secs), 2), 2),
        digits_of_width(zero_padded(second_of(secs), 2), 2),
        1 <= month_of(secs) <= 13,
        1 <= day_of(secs) <= 30,
        hour_of(secs) < 24,
        minute_of(secs) < 60,
        second_of(secs) < 60,
{
    let in_year = secs % 31536000;
    assert(in_year < 31536000);
    assert(in_year / 2592000 <= 12);
    assert(in_year % 2592000 < 2592000);
    assert(in_year % 2592000 / 86400 < 30);
    lemma_decimal_digits(year_of(secs));
    lemma_decimal_digits(month_of(secs));
    lemma_decimal_digits(day_of(secs));
    lemma_decimal_digits(hour_of(secs));
    lemma_decimal_digits(minute_of(secs));
    lemma_decimal_digits(second_of(secs));
    lemma_padded_width(year_of(secs), 4);
    lemma_padded_width(month_of(secs), 2);
    lemma_padded_width(day_of(secs), 2);
    lemma_padded_width(hour_of(secs), 2);
    lemma_padded_width(minute_of(secs), 2);
    lemma_padded_width(second_of(secs), 2);
}

impl Stamp {
    /// Cuts seconds since the epoch into year, month, day, hour, minute and second buckets.
    pub fn from_epoch_seconds(secs: u64) -> (r: Stamp)
        ensures
            r.year == year_of(secs as nat),
            r.month == month_of(secs as nat),
            r.day == day_of(secs as nat),
            r.hour == hour_of(secs as nat),
            r.minute == minute_of(secs as nat),
            r.second == second_of(secs as nat),
    {
        let mut rest: u64 = secs;
        let year: u64 = 1970 + rest / SECS_PER_YEAR;
        rest = rest % SECS_PER_YEAR;
        let month: u64 = 1 + rest / SECS_PER_MONTH;
        rest = rest % SECS_PER_MONTH;
        let day: u64 = 1 + rest / SECS_PER_DAY;
        rest = rest % SECS_PER_DAY;
        let hour: u64 = rest / SECS_PER_HOUR;
        rest = rest % SECS_PER_HOUR;
        let minute: u64 = rest / SECS_PER_MINUTE;
        let second: u64 = rest % SECS_PER_MINUTE;
        Stamp { year, month, day, hour, minute, second }
    }
}

fn digit_text(d: u64) -> (r: &'static str)
    requires
        d < 10,
    ensures
        r@ == seq![digit_char(d as nat)],
{
    if d == 0 {
        proof { reveal_strlit("0"); }
        "0"
    } else if d == 1 {
        proof { reveal_strlit("1"); }
        "1"
    } else if d == 2 {
        proof { reveal_strlit("2"); }
        "2"
    } else if d == 3 {
        proof { reveal_strlit("3"); }
        "3"
    } else if d == 4 {
        proof { reveal_strlit("4"); }
        "4"
    } else if d == 5 {
        proof { reveal_strlit("5"); }
        "5"
    } else if d == 6 {
        proof { reveal_strlit("6"); }
        "6"
    } else if d == 7 {
        proof { reveal_strlit("7"); }
        "7"
    } else if d == 8 {
        proof { reveal_strlit("8"); }
        "8"
    } else {
        proof { reveal_strlit("9"); }
        "9"
    }
}

/// The number of decimal digits of `n`.
fn digit_count(n: u64) -> (r: u64)
    ensures
        r == decimal(n as nat).len(),
        1 <= r <= n + 1,
    decreases n,
{
    if n < 10 {
        1
    } else {
        1 + digit_count(n / 10)
    }
}

/// Appends the decimal digits of `n` to `out`.
fn append_decimal(out: &mut String, n: u64)
    ensures
        final(out)@ == old(out)@ + decimal(n as nat),
    decreases n,
{
    if n >= 10 {
        append_decimal(out, n / 10);
    }
    out.append(digit_text(n % 10));
    assert(out@ =~= old(out)@ + decimal(n as nat));
}

/// Appends `n` to `out`, zero-padded to `width` characters.
fn append_padded(out: &mut String, n: u64, width: u64)
    ensures
        final(out)@ == old(out)@ + zero_padded(n as nat, width as nat),
{
    let count = digit_count(n);
    let ghost start = out@;
    let mut pad: u64 = count;
    while pad < width
        invariant
            count <= pad,
            count < width ==> pad <= width,
            count >= width ==> pad == count,
            out@ == start + Seq::new((pad - count) as nat, |i: int| '0'),
        decreases width - pad,
    {
        proof { reveal_strlit("0"); }
        out.append("0");
        assert(out@ =~= start + Seq::new((pad + 1 - count) as nat, |i: int| '0'));
        pad = pad + 1;
    }
    append_decimal(out, n);
    assert(out@ =~= start + zero_padded(n as nat, width as nat));
}

/// Formats seconds since the epoch as `YYYY-MM-DD_HH-MM-SS` over the buckets of [`Stamp`].
pub fn format_timestamp(secs: u64) -> (r: String)
    ensures
        r@ == timestamp_text(secs as nat),
{
    let stamp = Stamp::from_epoch_seconds(secs);
    proof {
        reveal_strlit("-");
        reveal_strlit("_");
    }
    let mut out = String::new();
    append_padded(&mut out, stamp.year, 4);
    out.append("-");
    append_padded(&mut out, stamp.month, 2);
    out.append("-");
    append_padded(&mut out, stamp.day, 2);
    out.append("_");
    append_padded(&mut out, stamp.hour, 2);
    out.append("-");
    append_padded(&mut out, stamp.minute, 2);
    out.append("-");
    append_padded(&mut out, stamp.second, 2);
    assert(out@ =~= timestamp_text(secs as nat));
    out
}

} // verus!
