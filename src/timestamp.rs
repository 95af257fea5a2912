use vstd::prelude::*;

verus! {

/// A local wall-clock time, held as the calendar fields that rendering reads.
#[derive(Clone, Copy, Debug, PartialEq, Eq, Structural)]
pub struct Timestamp {
    pub year: i32,
    pub month: u32,
    pub day: u32,
    pub hour: u32,
    pub minute: u32,
    pub second: u32,
    /// Nanoseconds past `second`; 1_000_000_000 and above mark a leap second.
    pub nanosecond: u32,
    /// Offset of local time from UTC, in seconds.
    pub offset_seconds: i32,
}

pub const NANOS_PER_SECOND: u32 = 1_000_000_000;

impl Timestamp {
    /// Each field lies in its range: month 1 to 12, day 1 to 31, hour,
    /// minute and second within a day, nanoseconds below two seconds. This
    /// bounds the fields one by one; it does not match days against months.
    pub open spec fn wf(self) -> bool {
        &&& 1 <= self.month <= 12
        &&& 1 <= self.day <= 31
        &&& self.hour < 24
        &&& self.minute < 60
        &&& self.second < 60
        &&& self.nanosecond < 2 * NANOS_PER_SECOND
    }

    /// The second as displayed: a leap second shows as 60.
    pub open spec fn shown_second(self) -> nat {
        (self.second + self.nanosecond / NANOS_PER_SECOND) as nat
    }
}

pub open spec fn digit_char(d: nat) -> char {
    if d == 0 { '0' }
    else if d == 1 { '1' }
    else if d == 2 { '2' }
    else if d == 3 { '3' }
    else if d == 4 { '4' }
    else if d == 5 { '5' }
    else if d == 6 { '6' }
    else if d == 7 { '7' }
    else if d == 8 { '8' }
    else { '9' }
}

/// The decimal digits of `n`, without leading zeros.
pub open spec fn decimal(n: nat) -> Seq<char>
    decreases n,
{
    if n < 10 {
        seq![digit_char(n)]
    } else {
        decimal(n / 10) + seq![digit_char(n % 10)]
    }
}

/// Exactly two digits, with a leading zero below ten.
pub open spec fn two_digits(n: nat) -> Seq<char> {
    seq![digit_char(n / 10), digit_char(n % 10)]
}

/// The digits of `n`, padded with zeros to at least four.
pub open spec fn padded4(n: nat) -> Seq<char> {
    let zeros: Seq<char> = if n < 10 {
        seq!['0', '0', '0']
    } else if n < 100 {
        seq!['0', '0']
    } else if n < 1000 {
        seq!['0']
    } else {
        seq![]
    };
    zeros + decimal(n)
}

pub open spec fn abs(y: int) -> nat {
    if y < 0 { (-y) as nat } else { y as nat }
}

/// A year as four digits; outside 0..=9999 it carries a sign.
pub open spec fn year_text(y: int) -> Seq<char> {
    let sign: Seq<char> = if 0 <= y <= 9999 {
        seq![]
    } else if y < 0 {
        seq!['-']
    } else {
        seq!['+']
    };
    sign + padded4(abs(y))
}

/// `DD.MM.YYYY at HH:MM:SS`.
pub open spec fn timestamp_text(t: Timestamp) -> Seq<char> {
    two_digits(t.day as nat) + "."@ + two_digits(t.month as nat) + "."@ + year_text(t.year as int)
        + " at "@ + two_digits(t.hour as nat) + ":"@ + two_digits(t.minute as nat) + ":"@
        + two_digits(t.shown_second())
}

fn digit_str(d: u32) -> (r: &'static str)
    requires
        d < 10,
    ensures
        r@ == seq![digit_char(d as nat)],
{
    proof {
        reveal_strlit("0");
        reveal_strlit("1");
        reveal_strlit("2");
        reveal_strlit("3");
        reveal_strlit("4");
        reveal_strlit("5");
        reveal_strlit("6");
        reveal_strlit("7");
        reveal_strlit("8");
        reveal_strlit("9");
    }
    if d == 0 { "0" }
    else if d == 1 { "1" }
    else if d == 2 { "2" }
    else if d == 3 { "3" }
    else if d == 4 { "4" }
    else if d == 5 { "5" }
    else if d == 6 { "6" }
    else if d == 7 { "7" }
    else if d == 8 { "8" }
    else { "9" }
}

fn push_decimal(out: &mut String, n: u32)
    ensures
        final(out)@ == old(out)@ + decimal(n as nat),
    decreases n,
{
    if n >= 10 {
        push_decimal(out, n / 10);
    }
    out.append(digit_str(n % 10));
    assert(final(out)@ =~= old(out)@ + decimal(n as nat));
}

fn push_two_digits(out: &mut String, n: u32)
    requires
        n < 100,
    ensures
        final(out)@ == old(out)@ + two_digits(n as nat),
{
    out.append(digit_str(n / 10));
    out.append(digit_str(n % 10));
    assert(final(out)@ =~= old(out)@ + two_digits(n as nat));
}

fn push_year(out: &mut String, y: i32)
    ensures
        final(out)@ == old(out)@ + year_text(y as int),
{
    let a: u32 = if y < 0 { (-(y as i64)) as u32 } else { y as u32 };
    if y < 0 {
        out.append("-");
    } else if y > 9999 {
        out.append("+");
    }
    proof {
        reveal_strlit("-");
        reveal_strlit("+");
        reveal_strlit("0");
    }
    if a < 1000 {
        out.append("0");
    }
    if a < 100 {
        out.append("0");
    }
    if a < 10 {
        out.append("0");
    }
    push_decimal(out, a);
    assert(a as nat == abs(y as int));
    assert(final(out)@ =~= old(out)@ + year_text(y as int));
}

impl Timestamp {
    /// Renders the instant as `DD.MM.YYYY at HH:MM:SS`.
    pub fn format(&self) -> (r: String)
        requires
            self.wf(),
        ensures
            r@ == timestamp_text(*self),
    {
        let mut out = String::new();
        push_two_digits(&mut out, self.day);
        out.append(".");
        push_two_digits(&mut out, self.month);
        out.append(".");
        push_year(&mut out, self.year);
        out.append(" at ");
        push_two_digits(&mut out, self.hour);
        out.append(":");
        push_two_digits(&mut out, self.minute);
        out.append(":");
        push_two_digits(&mut out, self.second + self.nanosecond / NANOS_PER_SECOND);
        assert(out@ =~= timestamp_text(*self));
        out
    }

    /// The current local time.
    pub fn now() -> (r: Timestamp)
        ensures
            r.wf(),
    {
        local_now()
    }
}

/// Relies on chrono's `From<SystemTime> for DateTime<Local>`, applied to
/// `std::time::SystemTime::now()` (a clock before 1970 gives an earlier
/// instant rather than a panic), and on the `Datelike` / `Timelike`
/// accessors, which chrono documents as: month 1..=12, day 1..=31,
/// hour 0..=23, minute and second 0..=59, nanosecond below 2_000_000_000.
#[verifier::external_body]
fn local_now() -> (r: Timestamp)
    ensures
        r.wf(),
{
    let t = chrono::DateTime::<chrono::Local>::from(std::time::SystemTime::now());
    Timestamp {
        year: chrono::Datelike::year(&t),
        month: chrono::Datelike::month(&t),
        day: chrono::Datelike::day(&t),
        hour: chrono::Timelike::hour(&t),
        minute: chrono::Timelike::minute(&t),
        second: chrono::Timelike::second(&t),
        nanosecond: chrono::Timelike::nanosecond(&t),
        offset_seconds: t.offset().local_minus_utc(),
    }
}

} // verus!
