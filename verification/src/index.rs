//! Names of the indices that events go to: a prefix, then the date of the
//! event in a format of the caller's choice.

use vstd::prelude::*;
use vstd::string::*;
use chrono::format::strftime::StrftimeItems;
use chrono::format::Item;
use chrono::{TimeZone, UTC};
use std::fmt::Write;
use crate::timestamp::{is_moment, Timestamp};
use crate::{DEFAULT_TEMPLATE_FORMAT, DEFAULT_TEMPLATE_PREFIX};

verus! {

/// What chrono writes for a moment in UTC under a `strftime` pattern, as far
/// as it gets: where the pattern is malformed, what stands before the fault.
pub uninterp spec fn date_text(
    year: int,
    month: int,
    day: int,
    hour: int,
    minute: int,
    second: int,
    millisecond: int,
    pattern: Seq<char>,
) -> Seq<char>;

/// Hands a moment and a pattern to chrono: `UTC.ymd(..).and_hms_milli(..)`
/// makes the moment, `format` reads the pattern, and the outcome is written
/// to a fresh string. Both constructors accept every moment of the calendar,
/// so they do not panic here. An error of the formatter ends the writing and
/// is not reported; the text is the same whenever the arguments are.
#[verifier::external_body]
fn format_moment(
    year: u32,
    month: u32,
    day: u32,
    hour: u32,
    minute: u32,
    second: u32,
    millisecond: u32,
    pattern: &str,
) -> (text: String)
    requires
        is_moment(
            year as int,
            month as int,
            day as int,
            hour as int,
            minute as int,
            second as int,
            millisecond as int,
        ),
    ensures
        text@ == date_text(
            year as int,
            month as int,
            day as int,
            hour as int,
            minute as int,
            second as int,
            millisecond as int,
            pattern@,
        ),
{
    let moment = UTC.ymd(year as i32, month, day).and_hms_milli(hour, minute, second, millisecond);
    let mut text = String::new();
    let _ = write!(text, "{}", moment.format(pattern));
    text
}

/// Whether chrono reads a `strftime` pattern from end to end without
/// meeting a specifier that it does not know.
pub uninterp spec fn pattern_is_sound(pattern: Seq<char>) -> bool;

/// Hands a pattern to chrono: `StrftimeItems::new` cuts it into items, and
/// the pattern is sound where none of them is `Item::Error`. The answer is
/// the same whenever the pattern is.
#[verifier::external_body]
fn read_pattern(pattern: &str) -> (sound: bool)
    ensures
        sound == pattern_is_sound(pattern@),
{
    StrftimeItems::new(pattern).all(|item| item != Item::Error)
}

/// The date of a moment under a pattern.
pub open spec fn formatted_date(date: Timestamp, pattern: Seq<char>) -> Seq<char> {
    date_text(
        date.spec_year() as int,
        date.spec_month() as int,
        date.spec_day() as int,
        date.spec_hour() as int,
        date.spec_minute() as int,
        date.spec_second() as int,
        date.spec_millisecond() as int,
        pattern,
    )
}

/// Template for naming log indices.
///
/// The index name consists of a prefix and a date format in the pattern
/// language of `strftime`. The default template produces index names like
/// `emitlog-20160501`.
#[derive(Debug)]
pub struct IndexTemplate {
    prefix: String,
    date_format: String,
}

/// An index template as a mathematical value.
pub struct IndexTemplateView {
    pub prefix: Seq<char>,
    pub date_format: Seq<char>,
}

impl View for IndexTemplate {
    type V = IndexTemplateView;

    closed spec fn view(&self) -> IndexTemplateView {
        IndexTemplateView { prefix: self.prefix@, date_format: self.date_format@ }
    }
}

/// The name of the index for a date: the prefix, then the date in the
/// template's format, with nothing between them.
pub open spec fn index_name(template: IndexTemplateView, date: Timestamp) -> Seq<char> {
    template.prefix + formatted_date(date, template.date_format)
}

/// What a template should be like: a prefix without `*`, which is added
/// only where the pattern of the index names is registered, and a date
/// format that chrono reads from end to end.
pub open spec fn well_formed(template: IndexTemplateView) -> bool {
    &&& !template.prefix.contains('*')
    &&& pattern_is_sound(template.date_format)
}

/// Every index name starts with the prefix of its template, and what
/// follows the prefix is the date in the template's format.
pub proof fn index_name_is_prefix_then_date(template: IndexTemplateView, date: Timestamp)
    ensures
        index_name(template, date).len() >= template.prefix.len(),
        index_name(template, date).take(template.prefix.len() as int) == template.prefix,
        index_name(template, date).skip(template.prefix.len() as int) == formatted_date(
            date,
            template.date_format,
        ),
{
    let name = index_name(template, date);
    let split = template.prefix.len() as int;
    assert(name.take(split) =~= template.prefix);
    assert(name.skip(split) =~= formatted_date(date, template.date_format));
}

impl IndexTemplate {
    /// Create an index template with the given `prefix` and `date_format`.
    pub fn new(prefix: &str, date_format: &str) -> (template: IndexTemplate)
        ensures
            template@ == (IndexTemplateView { prefix: prefix@, date_format: date_format@ }),
    {
        IndexTemplate { prefix: prefix.to_owned(), date_format: date_format.to_owned() }
    }

    /// The literal text that every index name starts with.
    pub fn prefix(&self) -> (prefix: &str)
        ensures
            prefix@ == self@.prefix,
    {
        self.prefix.as_str()
    }

    /// The pattern for the date that follows the prefix.
    pub fn date_format(&self) -> (date_format: &str)
        ensures
            date_format@ == self@.date_format,
    {
        self.date_format.as_str()
    }

    /// Tells whether the template is what a template should be like: no
    /// `*` in the prefix, and a sound date format. A collector is best set
    /// up with such templates only, since `index` reports no fault.
    pub fn is_well_formed(&self) -> (ok: bool)
        ensures
            ok == well_formed(self@),
    {
        let prefix = self.prefix.as_str();
        for c in it: prefix.chars()
            invariant
                it.seq() == prefix@,
                prefix@ == self@.prefix,
                !prefix@.take(it.index() as int).contains('*'),
        {
            if c == '*' {
                proof {
                    assert(prefix@[it.index() as int] == '*');
                }
                return false;
            }
            proof {
                let k = it.index() as int;
                assert(prefix@.take(k + 1) =~= prefix@.take(k).push(c));
            }
        }
        proof {
            assert(prefix@.take(prefix@.len() as int) == prefix@);
        }
        read_pattern(self.date_format.as_str())
    }

    /// Get the index name for a given timestamp.
    ///
    /// A template with a prefix of `testlog-` and a format of `%Y%m%d`
    /// names the index of the 8th of July 2014 `testlog-20140708`.
    pub fn index(&self, date: &Timestamp) -> (name: String)
        ensures
            name@ == index_name(self@, *date),
    {
        proof {
            use_type_invariant(date);
        }
        let mut name = self.prefix.clone();
        let formatted = format_moment(
            date.year(),
            date.month(),
            date.day(),
            date.hour(),
            date.minute(),
            date.second(),
            date.millisecond(),
            self.date_format.as_str(),
        );
        name.append(formatted.as_str());
        name
    }
}

impl Default for IndexTemplate {
    fn default() -> (template: IndexTemplate)
        ensures
            template@ == (IndexTemplateView {
                prefix: DEFAULT_TEMPLATE_PREFIX@,
                date_format: DEFAULT_TEMPLATE_FORMAT@,
            }),
    {
        IndexTemplate::new(DEFAULT_TEMPLATE_PREFIX, DEFAULT_TEMPLATE_FORMAT)
    }
}

} // verus!
