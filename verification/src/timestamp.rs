//! A point in time as its calendar date and time of day in UTC, to the
//! millisecond.

use vstd::prelude::*;
use vstd::string::*;
use crate::text::{digit, four_digits, three_digits, two_digits};
use crate::text::{push_four_digits, push_three_digits, push_two_digits};

verus! {

/// Whether a year of the Gregorian calendar has a 29th of February.
pub open spec fn is_leap_year(year: int) -> bool {
    year % 4 == 0 && (year % 100 != 0 || year % 400 == 0)
}

/// The number of days of a month, counted from 1 for January.
pub open spec fn days_in_month(year: int, month: int) -> int {
    if month == 2 {
        if is_leap_year(year) {
            29
        } else {
            28
        }
    } else if month == 4 || month == 6 || month == 9 || month == 11 {
        30
    } else {
        31
    }
}

/// Whether seven numbers name a moment of the calendar: a year of four
/// digits, a day that its month has, and a time of day without leap second.
pub open spec fn is_moment(
    year: int,
    month: int,
    day: int,
    hour: int,
    minute: int,
    second: int,
    millisecond: int,
) -> bool {
    &&& 0 <= year <= 9999
    &&& 1 <= month <= 12
    &&& 1 <= day <= days_in_month(year, month)
    &&& 0 <= hour < 24
    &&& 0 <= minute < 60
    &&& 0 <= second < 60
    &&& 0 <= millisecond < 1000
}

/// A moment in the form `2014-07-08T09:10:11.000Z`.
pub open spec fn iso8601(
    year: int,
    month: int,
    day: int,
    hour: int,
    minute: int,
    second: int,
    millisecond: int,
) -> Seq<char> {
    four_digits(year) + seq!['-'] + two_digits(month) + seq!['-'] + two_digits(day) + seq!['T']
        + two_digits(hour) + seq![':'] + two_digits(minute) + seq![':'] + two_digits(second)
        + seq!['.'] + three_digits(millisecond) + seq!['Z']
}

/// One of the characters `0` to `9`.
pub open spec fn is_decimal_digit(c: char) -> bool {
    48 <= c as u32 <= 57
}

/// The written form of a moment always has the shape
/// `yyyy-MM-ddTHH:mm:ss.SSSZ`: 24 characters, the marks at their places,
/// and decimal digits everywhere else. It is the shape that the mapping of
/// `@t` announces.
pub proof fn iso8601_has_fixed_shape(
    year: int,
    month: int,
    day: int,
    hour: int,
    minute: int,
    second: int,
    millisecond: int,
)
    requires
        is_moment(year, month, day, hour, minute, second, millisecond),
    ensures
        ({
            let text = iso8601(year, month, day, hour, minute, second, millisecond);
            &&& text.len() == 24
            &&& text[4] == '-'
            &&& text[7] == '-'
            &&& text[10] == 'T'
            &&& text[13] == ':'
            &&& text[16] == ':'
            &&& text[19] == '.'
            &&& text[23] == 'Z'
            &&& forall|i: int|
                0 <= i < 23 && i != 4 && i != 7 && i != 10 && i != 13 && i != 16 && i != 19
                    ==> is_decimal_digit(#[trigger] text[i])
        }),
{
    let text = iso8601(year, month, day, hour, minute, second, millisecond);
    let spelled = seq![
        digit(year / 1000),
        digit(year / 100 % 10),
        digit(year / 10 % 10),
        digit(year % 10),
        '-',
        digit(month / 10),
        digit(month % 10),
        '-',
        digit(day / 10),
        digit(day % 10),
        'T',
        digit(hour / 10),
        digit(hour % 10),
        ':',
        digit(minute / 10),
        digit(minute % 10),
        ':',
        digit(second / 10),
        digit(second % 10),
        '.',
        digit(millisecond / 100),
        digit(millisecond / 10 % 10),
        digit(millisecond % 10),
        'Z',
    ];
    assert(text =~= spelled);
    assert forall|d: int| 0 <= d < 10 implies is_decimal_digit(#[trigger] digit(d)) by {
        assert(digit(d) as u32 == 48 + d);
    }
}

/// A moment in UTC. Every value of this type names a real moment.
#[derive(Clone, Copy, Debug, PartialEq, Eq)]
pub struct Timestamp {
    year: u32,
    month: u32,
    day: u32,
    hour: u32,
    minute: u32,
    second: u32,
    millisecond: u32,
}

impl Timestamp {
    /// The year, from 0 to 9999.
    pub closed spec fn spec_year(&self) -> u32 {
        self.year
    }

    /// The month, from 1 to 12.
    pub closed spec fn spec_month(&self) -> u32 {
        self.month
    }

    /// The day of the month, from 1.
    pub closed spec fn spec_day(&self) -> u32 {
        self.day
    }

    /// The hour, from 0 to 23.
    pub closed spec fn spec_hour(&self) -> u32 {
        self.hour
    }

    /// The minute, from 0 to 59.
    pub closed spec fn spec_minute(&self) -> u32 {
        self.minute
    }

    /// The second, from 0 to 59.
    pub closed spec fn spec_second(&self) -> u32 {
        self.second
    }

    /// The millisecond, from 0 to 999.
    pub closed spec fn spec_millisecond(&self) -> u32 {
        self.millisecond
    }

    /// The seven numbers name a moment of the calendar.
    #[verifier::type_invariant]
    pub open spec fn is_valid(&self) -> bool {
        is_moment(
            self.spec_year() as int,
            self.spec_month() as int,
            self.spec_day() as int,
            self.spec_hour() as int,
            self.spec_minute() as int,
            self.spec_second() as int,
            self.spec_millisecond() as int,
        )
    }

    /// The moment in the form `2014-07-08T09:10:11.000Z`.
    pub open spec fn spec_iso8601(&self) -> Seq<char> {
        iso8601(
            self.spec_year() as int,
            self.spec_month() as int,
            self.spec_day() as int,
            self.spec_hour() as int,
            self.spec_minute() as int,
            self.spec_second() as int,
            self.spec_millisecond() as int,
        )
    }

    /// The moment that the seven numbers name, if they name one.
    pub fn new(
        year: u32,
        month: u32,
        day: u32,
        hour: u32,
        minute: u32,
        second: u32,
        millisecond: u32,
    ) -> (made: Option<Timestamp>)
        ensures
            made is Some <==> is_moment(
                year as int,
                month as int,
                day as int,
                hour as int,
                minute as int,
                second as int,
                millisecond as int,
            ),
            made matches Some(t) ==> {
                &&& t.is_valid()
                &&& t.spec_year() == year
                &&& t.spec_month() == month
                &&& t.spec_day() == day
                &&& t.spec_hour() == hour
                &&& t.spec_minute() == minute
                &&& t.spec_second() == second
                &&& t.spec_millisecond() == millisecond
            },
    {
        if year > 9999 || month < 1 || month > 12 || day < 1 {
            return None;
        }
        let leap = year % 4 == 0 && (year % 100 != 0 || year % 400 == 0);
        let days: u32 = if month == 2 {
            if leap {
                29
            } else {
                28
            }
        } else if month == 4 || month == 6 || month == 9 || month == 11 {
            30
        } else {
            31
        };
        if day > days || hour >= 24 || minute >= 60 || second >= 60 || millisecond >= 1000 {
            return None;
        }
        Some(Timestamp { year, month, day, hour, minute, second, millisecond })
    }

    /// The year, from 0 to 9999.
    #[verifier::when_used_as_spec(spec_year)]
    pub fn year(&self) -> (y: u32)
        ensures
            y == self.spec_year(),
    {
        self.year
    }

    /// The month, from 1 to 12.
    #[verifier::when_used_as_spec(spec_month)]
    pub fn month(&self) -> (m: u32)
        ensures
            m == self.spec_month(),
    {
        self.month
    }

    /// The day of the month, from 1.
    #[verifier::when_used_as_spec(spec_day)]
    pub fn day(&self) -> (d: u32)
        ensures
            d == self.spec_day(),
    {
        self.day
    }

    /// The hour, from 0 to 23.
    #[verifier::when_used_as_spec(spec_hour)]
    pub fn hour(&self) -> (h: u32)
        ensures
            h == self.spec_hour(),
    {
        self.hour
    }

    /// The minute, from 0 to 59.
    #[verifier::when_used_as_spec(spec_minute)]
    pub fn minute(&self) -> (m: u32)
        ensures
            m == self.spec_minute(),
    {
        self.minute
    }

    /// The second, from 0 to 59.
    #[verifier::when_used_as_spec(spec_second)]
    pub fn second(&self) -> (s: u32)
        ensures
            s == self.spec_second(),
    {
        self.second
    }

    /// The millisecond, from 0 to 999.
    #[verifier::when_used_as_spec(spec_millisecond)]
    pub fn millisecond(&self) -> (ms: u32)
        ensures
            ms == self.spec_millisecond(),
    {
        self.millisecond
    }

    /// Appends the moment in the form `2014-07-08T09:10:11.000Z`.
    pub fn push_iso8601(&self, out: &mut String)
        ensures
            final(out)@ == old(out)@ + self.spec_iso8601(),
    {
        proof {
            use_type_invariant(self);
        }
        push_four_digits(out, self.year);
        out.push('-');
        push_two_digits(out, self.month);
        out.push('-');
        push_two_digits(out, self.day);
        out.push('T');
        push_two_digits(out, self.hour);
        out.push(':');
        push_two_digits(out, self.minute);
        out.push(':');
        push_two_digits(out, self.second);
        out.push('.');
        push_three_digits(out, self.millisecond);
        out.push('Z');
    }
}

} // verus!
