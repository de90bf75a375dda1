//! The wall clock and the text that shows it.
use chrono::{Datelike, Timelike};
use vstd::prelude::*;

verus! {

/// The format of the clock with seconds.
pub const FORMAT_SECONDS: &'static str = "%Y-%m-%d %H:%M:%S";

/// The format of the clock without seconds.
pub const FORMAT_MINUTES: &'static str = "%Y-%m-%d %H:%M";

/// A date and a time of day, as a calendar and a clock on the wall show them.
#[derive(Clone, Copy, Debug, PartialEq, Eq, Structural)]
pub struct CivilTime {
    pub year: i32,
    pub month: u32,
    pub day: u32,
    pub hour: u32,
    pub minute: u32,
    pub second: u32,
}

/// Whether a year of the Gregorian calendar has a 29th of February.
pub open spec fn is_leap(year: int) -> bool {
    year % 4 == 0 && (year % 100 != 0 || year % 400 == 0)
}

/// The number of days of a month.
pub open spec fn days_in_month(year: int, month: int) -> int {
    if month == 2 {
        if is_leap(year) {
            29
        } else {
            28
        }
    } else if month == 4 || month == 6 || month == 9 || month == 11 {
        30
    } else {
        31
    }
}

/// A numeral filled up with zeros on the left to a width.
pub open spec fn zero_padded(n: nat, width: nat) -> Seq<char> {
    let digits = crate::text::decimal_nat(n);
    if digits.len() >= width {
        digits
    } else {
        Seq::new((width - digits.len()) as nat, |i: int| '0') + digits
    }
}

/// A year in at least four digits, with a sign outside of 0 to 9999.
pub open spec fn year_text(year: int) -> Seq<char> {
    if year < 0 {
        seq!['-'] + zero_padded((-year) as nat, 4)
    } else if year > 9999 {
        seq!['+'] + zero_padded(year as nat, 4)
    } else {
        zero_padded(year as nat, 4)
    }
}

impl CivilTime {
    /// Whether the day exists and the time is one of that day.
    pub open spec fn on_calendar(self) -> bool {
        &&& 1 <= self.month <= 12
        &&& 1 <= self.day <= days_in_month(self.year as int, self.month as int)
        &&& self.hour < 24
        &&& self.minute < 60
        &&& self.second < 60
    }

    /// The same time on the day after.
    pub open spec fn next_day(self) -> CivilTime {
        if self.day < days_in_month(self.year as int, self.month as int) {
            CivilTime { day: (self.day + 1) as u32, ..self }
        } else if self.month < 12 {
            CivilTime { month: (self.month + 1) as u32, day: 1, ..self }
        } else {
            CivilTime { year: (self.year + 1) as i32, month: 1, day: 1, ..self }
        }
    }

    /// The same time on the day before.
    pub open spec fn previous_day(self) -> CivilTime {
        if self.day > 1 {
            CivilTime { day: (self.day - 1) as u32, ..self }
        } else if self.month > 1 {
            CivilTime {
                month: (self.month - 1) as u32,
                day: days_in_month(self.year as int, self.month - 1) as u32,
                ..self
            }
        } else {
            CivilTime { year: (self.year - 1) as i32, month: 12, day: 31, ..self }
        }
    }

    /// The seconds since the day began.
    pub open spec fn second_of_day(self) -> int {
        self.hour * 3600 + self.minute * 60 + self.second
    }

    /// The same day, a number of seconds after it began.
    pub open spec fn at_second(self, n: int) -> CivilTime {
        CivilTime {
            hour: (n / 3600) as u32,
            minute: (n % 3600 / 60) as u32,
            second: (n % 60) as u32,
            ..self
        }
    }

    /// The date and the time up to the minute.
    pub open spec fn minute_text(self) -> Seq<char> {
        year_text(self.year as int) + seq!['-'] + zero_padded(self.month as nat, 2) + seq!['-']
            + zero_padded(self.day as nat, 2) + seq![' '] + zero_padded(self.hour as nat, 2)
            + seq![':'] + zero_padded(self.minute as nat, 2)
    }

    /// The text that the clock shows.
    pub open spec fn text(self, show_seconds: bool) -> Seq<char> {
        if show_seconds {
            self.minute_text() + seq![':'] + zero_padded(self.second as nat, 2)
        } else {
            self.minute_text()
        }
    }
}

/// A moment in a time zone: its UTC time and by how many seconds the zone is ahead.
#[derive(Clone, Copy, Debug, PartialEq, Eq, Structural)]
pub struct LocalTime {
    pub utc: CivilTime,
    pub offset: i32,
}

impl LocalTime {
    /// Whether the UTC time exists, in the years that can be represented, and the
    /// zone is less than a day away.
    pub open spec fn valid(self) -> bool {
        &&& self.utc.on_calendar()
        &&& -262143 <= self.utc.year <= 262142
        &&& -86400 < self.offset < 86400
    }

    /// The time in the zone.
    pub open spec fn civil(self) -> CivilTime {
        let n = self.utc.second_of_day() + self.offset;
        if n < 0 {
            self.utc.previous_day().at_second(n + 86400)
        } else if n >= 86400 {
            self.utc.next_day().at_second(n - 86400)
        } else {
            self.utc.at_second(n)
        }
    }
}

/// Calls `chrono::DateTime::format` on the moment built by `NaiveDate::from_ymd_opt`,
/// `NaiveDate::and_hms_opt`, `NaiveDateTime::and_utc`, `FixedOffset::east_opt` and
/// `DateTime::with_timezone`, which exists where the time is valid. Claims that the
/// text shows the UTC time shifted by the offset, also where that leads into the year
/// next to those that chrono represents, and what chrono documents of the items `%Y`,
/// `%m`, `%d`, `%H`, `%M` and `%S` in the two formats of the clock: numerals filled
/// with zeros to four digits for the year, signed outside of 0 to 9999, and to two for
/// the rest.
#[verifier::external_body]
fn format_local(t: &LocalTime, fmt: &str) -> (s: String)
    requires
        t.valid(),
        fmt@ == FORMAT_SECONDS@ || fmt@ == FORMAT_MINUTES@,
    ensures
        fmt@ == FORMAT_SECONDS@ ==> s@ == t.civil().text(true),
        fmt@ == FORMAT_MINUTES@ ==> s@ == t.civil().text(false),
{
    let u = t.utc;
    let date = chrono::NaiveDate::from_ymd_opt(u.year, u.month, u.day).unwrap();
    let utc = date.and_hms_opt(u.hour, u.minute, u.second).unwrap().and_utc();
    let zone = chrono::FixedOffset::east_opt(t.offset).unwrap();
    utc.with_timezone(&zone).format(fmt).to_string()
}

/// The moments that the local clock has given so far, kept for proofs only: it takes no
/// room when the program runs. Reading the clock is the one way to add to it.
pub struct ClockLog {
    readings: Ghost<Seq<LocalTime>>,
}

impl View for ClockLog {
    type V = Seq<LocalTime>;

    closed spec fn view(&self) -> Seq<LocalTime> {
        self.readings@
    }
}

impl ClockLog {
    /// The log before the clock was read.
    pub fn new() -> (log: Self)
        ensures
            log@ == Seq::<LocalTime>::empty(),
    {
        ClockLog { readings: Ghost(Seq::empty()) }
    }
}

/// Calls `chrono::Local::now` and takes the calendar fields of its UTC time and its
/// offset. Claims only that they are valid, and that the log of the moments read grows
/// by what is returned: which moment it is depends on the clock and on the time zone of
/// the machine. Like chrono, it does not return where the
/// system clock is set before 1970 or beyond the years that chrono represents, nor
/// where the machine's time zone gives no offset from UTC or one of a day or more.
#[verifier::external_body]
#[allow(unused_variables)]
pub(crate) fn local_now(log: &mut ClockLog) -> (t: LocalTime)
    ensures
        t.valid(),
        final(log)@ == old(log)@.push(t),
{
    let now = chrono::Local::now();
    let u = now.naive_utc();
    let (year, month, day) = (u.year(), u.month(), u.day());
    let (hour, minute, second) = (u.hour(), u.minute(), u.second());
    let utc = CivilTime { year, month, day, hour, minute, second };
    LocalTime { utc, offset: now.offset().local_minus_utc() }
}

/// The clock's text for a moment in a time zone.
pub fn clock_text(t: &LocalTime, show_seconds: bool) -> (s: String)
    requires
        t.valid(),
    ensures
        s@ == t.civil().text(show_seconds),
{
    let fmt = if show_seconds {
        FORMAT_SECONDS
    } else {
        FORMAT_MINUTES
    };
    format_local(t, fmt)
}

/// The day before the day after is the day itself, and so is the day after the day
/// before.
pub proof fn law_neighbouring_days(t: CivilTime)
    requires
        t.on_calendar(),
        i32::MIN < t.year < i32::MAX,
    ensures
        t.next_day().on_calendar(),
        t.previous_day().on_calendar(),
        t.next_day().previous_day() == t,
        t.previous_day().next_day() == t,
{
}

/// A number of seconds below a day makes a time of day.
proof fn lemma_at_second(t: CivilTime, n: int)
    requires
        0 <= n < 86400,
    ensures
        ({
            let u = t.at_second(n);
            &&& u.hour < 24
            &&& u.minute < 60
            &&& u.second < 60
            &&& u.second_of_day() == n
            &&& (u.year, u.month, u.day) == (t.year, t.month, t.day)
        }),
{
    let r = n % 3600;
    assert(n == 3600 * (n / 3600) + r);
    assert(r == 60 * (r / 60) + r % 60);
    assert(r % 60 == n % 60) by {
        vstd::arithmetic::div_mod::lemma_mod_mod(n, 60, 60);
    }
}

/// A time of day is the one at its number of seconds.
proof fn lemma_own_second(t: CivilTime)
    requires
        t.hour < 24,
        t.minute < 60,
        t.second < 60,
    ensures
        0 <= t.second_of_day() < 86400,
        t.at_second(t.second_of_day()) == t,
{
    let n = t.second_of_day();
    let r = t.minute * 60 + t.second;
    vstd::arithmetic::div_mod::lemma_fundamental_div_mod_converse(n, 3600, t.hour as int, r);
    vstd::arithmetic::div_mod::lemma_fundamental_div_mod_converse(
        r,
        60,
        t.minute as int,
        t.second as int,
    );
    vstd::arithmetic::div_mod::lemma_fundamental_div_mod_converse(
        n,
        60,
        t.hour * 60 + t.minute,
        t.second as int,
    );
}

/// The time in a zone exists on the calendar, in a year at most one away from those of
/// UTC. It differs from the UTC time by the offset, within the day or over midnight, and
/// is the UTC time where the offset is zero.
pub proof fn law_local_time_exists(t: LocalTime)
    requires
        t.valid(),
    ensures
        t.civil().on_calendar(),
        -262144 <= t.civil().year <= 262143,
        t.offset == 0 ==> t.civil() == t.utc,
        ({
            let over = t.civil().second_of_day() - t.utc.second_of_day() - t.offset;
            let day = |c: CivilTime| (c.year, c.month, c.day);
            ||| over == 0 && day(t.civil()) == day(t.utc)
            ||| over == 86400 && day(t.civil()) == day(t.utc.previous_day())
            ||| over == -86400 && day(t.civil()) == day(t.utc.next_day())
        }),
{
    law_neighbouring_days(t.utc);
    lemma_own_second(t.utc);
    let n = t.utc.second_of_day() + t.offset;
    if n < 0 {
        lemma_at_second(t.utc.previous_day(), n + 86400);
    } else if n >= 86400 {
        lemma_at_second(t.utc.next_day(), n - 86400);
    } else {
        lemma_at_second(t.utc, n);
    }
}

/// The clock with seconds shows what the clock without them shows, and then the
/// seconds in two digits.
pub proof fn law_seconds_extend_minutes(t: CivilTime)
    requires
        t.on_calendar(),
    ensures
        t.text(true).take(t.text(false).len() as int) == t.text(false),
        t.text(true).len() == t.text(false).len() + 3,
{
    assert(crate::text::decimal_nat(t.second as nat).len() <= 2) by {
        reveal_with_fuel(crate::text::decimal_nat, 2);
    }
    assert(t.text(true).take(t.text(false).len() as int) =~= t.text(false));
}

/// A number below a hundred fills two digits.
proof fn lemma_two_digits(n: nat)
    requires
        n < 100,
    ensures
        zero_padded(n, 2) == seq![
            crate::text::digit_char((n / 10) as int),
            crate::text::digit_char((n % 10) as int),
        ],
{
    reveal_with_fuel(crate::text::decimal_nat, 2);
    assert(zero_padded(n, 2) =~= seq![
        crate::text::digit_char((n / 10) as int),
        crate::text::digit_char((n % 10) as int),
    ]);
}

/// A number below ten thousand fills four digits.
proof fn lemma_four_digits(n: nat)
    requires
        n < 10000,
    ensures
        zero_padded(n, 4) == seq![
            crate::text::digit_char((n / 1000) as int),
            crate::text::digit_char((n / 100 % 10) as int),
            crate::text::digit_char((n / 10 % 10) as int),
            crate::text::digit_char((n % 10) as int),
        ],
{
    reveal_with_fuel(crate::text::decimal_nat, 4);
    assert(n / 10 / 10 == n / 100);
    assert(n / 10 / 10 / 10 == n / 1000);
    assert(zero_padded(n, 4) =~= seq![
        crate::text::digit_char((n / 1000) as int),
        crate::text::digit_char((n / 100 % 10) as int),
        crate::text::digit_char((n / 10 % 10) as int),
        crate::text::digit_char((n % 10) as int),
    ]);
}

/// A number from ten thousand on fills more than four digits.
proof fn lemma_more_digits(n: nat)
    requires
        n >= 10000,
    ensures
        crate::text::decimal_nat(n).len() > 4,
        zero_padded(n, 4) == crate::text::decimal_nat(n),
{
    reveal_with_fuel(crate::text::decimal_nat, 5);
}

/// Four digits make up a number.
proof fn lemma_from_four_digits(n: nat)
    requires
        n < 10000,
    ensures
        n == n / 1000 * 1000 + n / 100 % 10 * 100 + n / 10 % 10 * 10 + n % 10,
{
    let tens = n / 10;
    let hundreds = tens / 10;
    let thousands = hundreds / 10;
    assert(n / 100 == hundreds && n / 1000 == thousands) by {
        vstd::arithmetic::div_mod::lemma_div_denominator(n as int, 10, 10);
        vstd::arithmetic::div_mod::lemma_div_denominator(n as int, 100, 10);
    }
    assert(n == 10 * tens + n % 10);
    assert(tens == 10 * hundreds + tens % 10);
    assert(hundreds == 10 * thousands + hundreds % 10);
}

/// Different digits have different characters.
proof fn lemma_digit_injective(a: int, b: int)
    requires
        0 <= a < 10,
        0 <= b < 10,
        crate::text::digit_char(a) == crate::text::digit_char(b),
    ensures
        a == b,
{
}

/// Numbers that fill up to the same four digits are the same.
proof fn lemma_four_digits_injective(m: nat, n: nat)
    requires
        m < 10000,
        n < 10000,
        zero_padded(m, 4) == zero_padded(n, 4),
    ensures
        m == n,
{
    lemma_four_digits(m);
    lemma_four_digits(n);
    let a = zero_padded(m, 4);
    let b = zero_padded(n, 4);
    assert(a[0] == b[0] && a[1] == b[1] && a[2] == b[2] && a[3] == b[3]);
    lemma_digit_injective((m / 1000) as int, (n / 1000) as int);
    lemma_digit_injective((m / 100 % 10) as int, (n / 100 % 10) as int);
    lemma_digit_injective((m / 10 % 10) as int, (n / 10 % 10) as int);
    lemma_digit_injective((m % 10) as int, (n % 10) as int);
    lemma_from_four_digits(m);
    lemma_from_four_digits(n);
}

/// Numbers that fill up to the same four digits or more are the same.
proof fn lemma_padded_injective(m: nat, n: nat)
    requires
        zero_padded(m, 4) == zero_padded(n, 4),
    ensures
        m == n,
{
    if m < 10000 && n < 10000 {
        lemma_four_digits_injective(m, n);
    } else if m >= 10000 && n >= 10000 {
        lemma_more_digits(m);
        lemma_more_digits(n);
        crate::text::lemma_decimal_nat_injective(m, n);
    } else if m < 10000 {
        lemma_four_digits(m);
        lemma_more_digits(n);
    } else {
        lemma_more_digits(m);
        lemma_four_digits(n);
    }
}

/// The first character of a year is its sign or a digit.
proof fn lemma_year_head(year: int)
    ensures
        year_text(year).len() >= 4,
        year_text(year)[0] == '-' <==> year < 0,
        year_text(year)[0] == '+' <==> year > 9999,
{
    let n = if year < 0 { (-year) as nat } else { year as nat };
    if n < 10000 {
        lemma_four_digits(n);
    } else {
        lemma_more_digits(n);
    }
}

/// Different years have different texts.
proof fn lemma_year_injective(x: int, y: int)
    requires
        year_text(x) == year_text(y),
    ensures
        x == y,
{
    lemma_year_head(x);
    lemma_year_head(y);
    if x < 0 {
        assert(year_text(x).skip(1) =~= zero_padded((-x) as nat, 4));
        assert(year_text(y).skip(1) =~= zero_padded((-y) as nat, 4));
        lemma_padded_injective((-x) as nat, (-y) as nat);
    } else if x > 9999 {
        assert(year_text(x).skip(1) =~= zero_padded(x as nat, 4));
        assert(year_text(y).skip(1) =~= zero_padded(y as nat, 4));
        lemma_padded_injective(x as nat, y as nat);
    } else {
        lemma_padded_injective(x as nat, y as nat);
    }
}

/// The text with seconds is the year and fifteen characters with the other numbers
/// at fixed places.
proof fn lemma_text_places(t: CivilTime)
    requires
        t.on_calendar(),
    ensures
        ({
            let s = t.text(true);
            let y = s.len() - 15;
            &&& y >= 4
            &&& s.take(y) == year_text(t.year as int)
            &&& s[y + 1] == crate::text::digit_char(t.month as int / 10)
            &&& s[y + 2] == crate::text::digit_char(t.month as int % 10)
            &&& s[y + 4] == crate::text::digit_char(t.day as int / 10)
            &&& s[y + 5] == crate::text::digit_char(t.day as int % 10)
            &&& s[y + 7] == crate::text::digit_char(t.hour as int / 10)
            &&& s[y + 8] == crate::text::digit_char(t.hour as int % 10)
            &&& s[y + 10] == crate::text::digit_char(t.minute as int / 10)
            &&& s[y + 11] == crate::text::digit_char(t.minute as int % 10)
            &&& s[y + 13] == crate::text::digit_char(t.second as int / 10)
            &&& s[y + 14] == crate::text::digit_char(t.second as int % 10)
        }),
{
    lemma_year_head(t.year as int);
    lemma_two_digits(t.month as nat);
    lemma_two_digits(t.day as nat);
    lemma_two_digits(t.hour as nat);
    lemma_two_digits(t.minute as nat);
    lemma_two_digits(t.second as nat);
    let s = t.text(true);
    assert(s.take(s.len() - 15) =~= year_text(t.year as int));
}

/// The clock with seconds tells any two times apart.
pub proof fn law_texts_tell_times_apart(t: CivilTime, u: CivilTime)
    requires
        t.on_calendar(),
        u.on_calendar(),
        t.text(true) == u.text(true),
    ensures
        t == u,
{
    lemma_text_places(t);
    lemma_text_places(u);
    lemma_year_injective(t.year as int, u.year as int);
}

/// The log's model is what it holds.
proof fn lemma_log_model(log: ClockLog)
    ensures
        log@ == log.readings@,
{
}

/// The lengths of the months, and which years have a 29th of February.
pub proof fn law_calendar(year: int, month: int)
    requires
        1 <= month <= 12,
    ensures
        days_in_month(year, month) == (if month == 2 {
            if year % 400 == 0 || (year % 4 == 0 && year % 100 != 0) {
                29int
            } else {
                28
            }
        } else {
            seq![31int, 28, 31, 30, 31, 30, 31, 31, 30, 31, 30, 31][month - 1]
        }),
{
}

/// The day after is the next of the month, the first of the next month or the first of
/// January, whichever exists first; the time of day stays.
pub proof fn law_next_day(t: CivilTime)
    requires
        t.on_calendar(),
        t.year < i32::MAX,
    ensures
        ({
            let u = t.next_day();
            let last_of_month = t.day == days_in_month(t.year as int, t.month as int);
            &&& (u.hour, u.minute, u.second) == (t.hour, t.minute, t.second)
            &&& !last_of_month ==> (u.year, u.month) == (t.year, t.month) && u.day == t.day + 1
            &&& last_of_month && t.month < 12 ==> u.year == t.year && u.month == t.month + 1
                && u.day == 1
            &&& last_of_month && t.month == 12 ==> u.year == t.year + 1 && u.month == 1 && u.day
                == 1
        }),
{
}

/// Zeros on the left do not change what a numeral stands for.
proof fn lemma_leading_zeros(zeros: nat, digits: Seq<char>)
    ensures
        crate::text::numeral_value(Seq::new(zeros, |i: int| '0') + digits)
            == crate::text::numeral_value(digits),
    decreases digits.len(), zeros,
{
    let all = Seq::new(zeros, |i: int| '0') + digits;
    if digits.len() > 0 {
        assert(all.drop_last() =~= Seq::new(zeros, |i: int| '0') + digits.drop_last());
        lemma_leading_zeros(zeros, digits.drop_last());
    } else if zeros > 0 {
        let fewer = (zeros - 1) as nat;
        assert(all.drop_last() =~= Seq::new(fewer, |i: int| '0') + digits);
        lemma_leading_zeros(fewer, digits);
    } else {
        assert(all =~= digits);
    }
}

/// A filled numeral stands for its number and is as wide as asked for, or wider where the
/// number needs it.
pub proof fn law_padding_reads_back(n: nat, width: nat)
    ensures
        crate::text::numeral_value(zero_padded(n, width)) == n,
        zero_padded(n, width).len() >= width,
        zero_padded(n, width).len() > width ==> zero_padded(n, width) == crate::text::decimal_nat(n),
        forall|i: int|
            0 <= i < zero_padded(n, width).len() ==> '0' <= #[trigger] zero_padded(n, width)[i]
                <= '9',
{
    crate::text::law_numerals_read_back(n);
    let digits = crate::text::decimal_nat(n);
    if digits.len() < width {
        lemma_leading_zeros((width - digits.len()) as nat, digits);
    }
}

/// A year has at least four digits, which stand for its magnitude, and a sign exactly
/// outside of 0 to 9999.
pub proof fn law_year_reads_back(year: int)
    ensures
        0 <= year <= 9999 ==> year_text(year).len() == 4 && crate::text::numeral_value(
            year_text(year),
        ) == year,
        year < 0 ==> year_text(year).len() >= 5 && year_text(year)[0] == '-'
            && crate::text::numeral_value(year_text(year).skip(1)) == -year,
        year > 9999 ==> year_text(year).len() >= 6 && year_text(year)[0] == '+'
            && crate::text::numeral_value(year_text(year).skip(1)) == year,
{
    if 0 <= year <= 9999 {
        law_padding_reads_back(year as nat, 4);
        lemma_four_digits(year as nat);
    } else if year < 0 {
        law_padding_reads_back((-year) as nat, 4);
        assert(year_text(year).skip(1) =~= zero_padded((-year) as nat, 4));
    } else {
        law_padding_reads_back(year as nat, 4);
        lemma_more_digits(year as nat);
        assert(year_text(year).skip(1) =~= zero_padded(year as nat, 4));
    }
}

/// Everything of a time can be read back from the clock's text: the year, and after it
/// month, day, hour and minute in two digits each between their marks, and the seconds
/// where they are shown and only there.
pub proof fn law_clock_text_reads_back(t: CivilTime, show_seconds: bool)
    requires
        t.on_calendar(),
    ensures
        ({
            let s = t.text(show_seconds);
            let y = year_text(t.year as int).len() as int;
            let part = |from: int| crate::text::numeral_value(s.subrange(from, from + 2));
            &&& s.len() == y + (if show_seconds {
                15int
            } else {
                12
            })
            &&& s.take(y) == year_text(t.year as int)
            &&& s[y] == '-' && part(y + 1) == t.month
            &&& s[y + 3] == '-' && part(y + 4) == t.day
            &&& s[y + 6] == ' ' && part(y + 7) == t.hour
            &&& s[y + 9] == ':' && part(y + 10) == t.minute
            &&& show_seconds ==> s[y + 12] == ':' && part(y + 13) == t.second
        }),
{
    let s = t.text(show_seconds);
    let y = year_text(t.year as int).len() as int;
    lemma_two_digits(t.month as nat);
    lemma_two_digits(t.day as nat);
    lemma_two_digits(t.hour as nat);
    lemma_two_digits(t.minute as nat);
    lemma_two_digits(t.second as nat);
    law_padding_reads_back(t.month as nat, 2);
    law_padding_reads_back(t.day as nat, 2);
    law_padding_reads_back(t.hour as nat, 2);
    law_padding_reads_back(t.minute as nat, 2);
    law_padding_reads_back(t.second as nat, 2);
    assert(s.take(y) =~= year_text(t.year as int));
    assert(s.subrange(y + 1, y + 3) =~= zero_padded(t.month as nat, 2));
    assert(s.subrange(y + 4, y + 6) =~= zero_padded(t.day as nat, 2));
    assert(s.subrange(y + 7, y + 9) =~= zero_padded(t.hour as nat, 2));
    assert(s.subrange(y + 10, y + 12) =~= zero_padded(t.minute as nat, 2));
    if show_seconds {
        assert(s.subrange(y + 13, y + 15) =~= zero_padded(t.second as nat, 2));
    }
}

/// The formats handed to chrono.
pub proof fn law_formats()
    ensures
        FORMAT_SECONDS@ == "%Y-%m-%d %H:%M:%S"@,
        FORMAT_MINUTES@ == "%Y-%m-%d %H:%M"@,
{
}

} // verus!
