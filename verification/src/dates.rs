use crate::models::Timestamp;
use vstd::prelude::*;

verus! {

/// What a text reads as under the pattern `%Y-%m-%d %H:%M:%S`, if it reads as a date
/// and time at all.
pub uninterp spec fn parsed_timestamp(text: Seq<char>) -> Option<Timestamp>;

/// How a point in time is written under the pattern `%Y-%m-%d %H:%M:%S`, if it lies in
/// the range of dates that can be written.
pub uninterp spec fn formatted_timestamp(at: Timestamp) -> Option<Seq<char>>;

/// `chrono::NaiveDateTime::parse_from_str` with the pattern `%Y-%m-%d %H:%M:%S`: the
/// result depends on the text alone. A text that chrono rejects gives `None`; one that
/// it accepts gives the seconds and nanoseconds that `and_utc().timestamp()` and
/// `and_utc().timestamp_subsec_nanos()` report of the value.
#[verifier::external_body]
pub(crate) fn parse_timestamp(text: &str) -> (parsed: Option<Timestamp>)
    ensures
        parsed == parsed_timestamp(text@),
{
    match chrono::NaiveDateTime::parse_from_str(text, "%Y-%m-%d %H:%M:%S") {
        Ok(at) => Some(
            Timestamp {
                secs: at.and_utc().timestamp(),
                nanos: at.and_utc().timestamp_subsec_nanos(),
            },
        ),
        Err(_) => None,
    }
}

/// `chrono::NaiveDateTime::format` with the pattern `%Y-%m-%d %H:%M:%S`, on the value
/// that `chrono::DateTime::from_timestamp` makes of the seconds and nanoseconds: the
/// result depends on these alone, and is `None` where `from_timestamp` gives none.
#[verifier::external_body]
pub(crate) fn format_timestamp(at: Timestamp) -> (text: Option<String>)
    ensures
        match text {
            Some(t) => formatted_timestamp(at) == Some(t@),
            None => formatted_timestamp(at) is None,
        },
{
    match chrono::DateTime::from_timestamp(at.secs, at.nanos) {
        Some(utc) => Some(utc.naive_utc().format("%Y-%m-%d %H:%M:%S").to_string()),
        None => None,
    }
}

/// `chrono::Local::now`, as the local date and time without a zone, in the seconds and
/// nanoseconds that `and_utc().timestamp()` and `and_utc().timestamp_subsec_nanos()`
/// report of it. Nothing is claimed of the result: it is the clock's.
#[verifier::external_body]
pub(crate) fn local_now() -> (now: Timestamp) {
    let now = chrono::Local::now().naive_local();
    Timestamp { secs: now.and_utc().timestamp(), nanos: now.and_utc().timestamp_subsec_nanos() }
}

/// What a date field holds: nothing when it is empty or does not read as a date.
pub open spec fn date_reading(text: Seq<char>) -> Option<Timestamp> {
    if text.len() == 0 {
        None
    } else {
        parsed_timestamp(text)
    }
}

/// Reads a date field. A text that is no date counts as an empty field.
pub fn read_date(text: &str) -> (date: Option<Timestamp>)
    ensures
        date == date_reading(text@),
{
    if text.is_empty() {
        None
    } else {
        parse_timestamp(text)
    }
}

/// The text a date field shows for a stored date: empty when there is none, or none
/// that can be written.
pub open spec fn date_text(date: Option<Timestamp>) -> Seq<char> {
    match date {
        Some(at) => match formatted_timestamp(at) {
            Some(text) => text,
            None => Seq::empty(),
        },
        None => Seq::empty(),
    }
}

/// Writes a stored date for a date field.
pub fn show_date(date: Option<Timestamp>) -> (text: String)
    ensures
        text@ == date_text(date),
{
    match date {
        Some(at) => match format_timestamp(at) {
            Some(text) => text,
            None => String::new(),
        },
        None => String::new(),
    }
}

} // verus!
