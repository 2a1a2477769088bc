use vstd::prelude::*;
use chrono::{Datelike, Timelike};

verus! {

/// A local wall-clock instant, as its calendar fields and its RFC 3339 text.
#[derive(Clone, Debug)]
pub struct LocalTime {
    pub year: i32,
    pub month: u32,
    pub day: u32,
    pub hour: u32,
    pub minute: u32,
    pub second: u32,
    pub rfc3339: String,
}

impl LocalTime {
    /// The fields lie in their calendar ranges.
    pub open spec fn wf(&self) -> bool {
        &&& 1 <= self.month <= 12
        &&& 1 <= self.day <= 31
        &&& self.hour <= 23
        &&& self.minute <= 59
        &&& self.second <= 59
    }
}

/// Relies on `chrono::Local::now` for the current local time, on the
/// `Datelike` and `Timelike` accessors, which give month 1 to 12, day 1 to
/// 31, hour 0 to 23, minute and second 0 to 59, and on
/// `DateTime::to_rfc3339` for the same instant.
#[verifier::external_body]
pub(crate) fn local_now() -> (t: LocalTime)
    ensures
        t.wf(),
{
    let now = chrono::Local::now();
    LocalTime {
        year: now.year(),
        month: now.month(),
        day: now.day(),
        hour: now.hour(),
        minute: now.minute(),
        second: now.second(),
        rfc3339: now.to_rfc3339(),
    }
}

/// The decimal digit `d`.
pub open spec fn digit(d: int) -> char {
    seq!['0', '1', '2', '3', '4', '5', '6', '7', '8', '9'][d]
}

/// Decimal text of `n`, zero-padded to at least `width` digits.
pub open spec fn decimal(n: nat, width: nat) -> Seq<char>
    decreases n + width,
{
    if n < 10 && width <= 1 {
        seq![digit(n as int)]
    } else {
        decimal(n / 10, if width > 0 { (width - 1) as nat } else { 0 }).push(digit((n % 10) as int))
    }
}

/// A year as a timestamp shows it: four digits from 0 to 9999, otherwise a
/// sign and at least four digits.
pub open spec fn year_text(y: int) -> Seq<char> {
    if 0 <= y <= 9999 {
        decimal(y as nat, 4)
    } else if y < 0 {
        seq!['-'] + decimal((-y) as nat, 4)
    } else {
        seq!['+'] + decimal(y as nat, 4)
    }
}

/// `YYYYMMDD_HHMMSS` for a local time.
pub open spec fn stamp_text(t: LocalTime) -> Seq<char> {
    year_text(t.year as int) + decimal(t.month as nat, 2) + decimal(t.day as nat, 2) + seq!['_']
        + decimal(t.hour as nat, 2) + decimal(t.minute as nat, 2) + decimal(t.second as nat, 2)
}

fn digit_str(d: u64) -> (r: &'static str)
    requires
        d < 10,
    ensures
        r@ == seq![digit(d as int)],
{
    proof {
        reveal_strlit("0");
        reveal_strlit("1");
        reveal_strlit("2");
        reveal_strlit("3");
        reveal_strlit("4");
        reveal_strlit("5");
        reveal_strlit("6");
        reveal_strlit("7");
        reveal_strlit("8");
        reveal_strlit("9");
    }
    let r = match d {
        0 => "0",
        1 => "1",
        2 => "2",
        3 => "3",
        4 => "4",
        5 => "5",
        6 => "6",
        7 => "7",
        8 => "8",
        _ => "9",
    };
    assert(r@ =~= seq![digit(d as int)]);
    r
}

/// Appends `n` in decimal, zero-padded to at least `width` digits.
fn push_decimal(s: &mut String, n: u64, width: u64)
    ensures
        final(s)@ == old(s)@ + decimal(n as nat, width as nat),
    decreases n + width,
{
    if n < 10 && width <= 1 {
        s.append(digit_str(n));
    } else {
        let w: u64 = if width > 0 { width - 1 } else { 0 };
        push_decimal(s, n / 10, w);
        s.append(digit_str(n % 10));
        assert(final(s)@ =~= old(s)@ + decimal(n as nat, width as nat));
    }
}

/// Appends the year as `year_text` gives it.
fn push_year(s: &mut String, y: i32)
    ensures
        final(s)@ == old(s)@ + year_text(y as int),
{
    proof {
        reveal_strlit("-");
        reveal_strlit("+");
    }
    if 0 <= y && y <= 9999 {
        push_decimal(s, y as u64, 4);
    } else if y < 0 {
        s.append("-");
        let magnitude: u64 = (-(y as i64)) as u64;
        push_decimal(s, magnitude, 4);
        assert(final(s)@ =~= old(s)@ + year_text(y as int));
    } else {
        s.append("+");
        push_decimal(s, y as u64, 4);
        assert(final(s)@ =~= old(s)@ + year_text(y as int));
    }
}

/// Appends the `YYYYMMDD_HHMMSS` stamp of a local time.
pub fn push_stamp(s: &mut String, t: &LocalTime)
    ensures
        final(s)@ == old(s)@ + stamp_text(*t),
{
    proof {
        reveal_strlit("_");
    }
    let ghost s0 = s@;
    push_year(s, t.year);
    push_decimal(s, t.month as u64, 2);
    push_decimal(s, t.day as u64, 2);
    s.append("_");
    push_decimal(s, t.hour as u64, 2);
    push_decimal(s, t.minute as u64, 2);
    push_decimal(s, t.second as u64, 2);
    assert(s@ =~= s0 + stamp_text(*t));
}

} // verus!
