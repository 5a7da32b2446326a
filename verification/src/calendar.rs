//! Calendar handling over chrono: bar timestamps read from text, dates
//! written for reports, and the weekly expiry calendar, in which option legs
//! expire on the next Thursday (UTC) and a leg on its expiry day has zero
//! whole days left.

use vstd::prelude::*;

use chrono::Datelike;

verus! {

/// The first day chrono's calendar holds (1 January of year -262143), as a
/// day number counted from the Unix epoch (1970-01-01 is day 0).
pub const MIN_EPOCH_DAY: i64 = -96_465_292;

/// The last day chrono's calendar holds (31 December of year 262142), a
/// Monday, as a day number counted from the Unix epoch.
pub const MAX_EPOCH_DAY: i64 = 95_026_236;

/// The last second of the Thursday before `MAX_EPOCH_DAY`: after it, to the
/// end of the calendar, the next Thursday lies past the calendar's last day.
pub const LAST_EXPIRY_SECOND: i64 = 8_210_266_531_199;

/// The last second of `MAX_EPOCH_DAY`.
pub const MAX_CALENDAR_SECOND: i64 = 8_210_266_876_799;

/// The day number, counted from the Unix epoch, of the UTC day holding
/// `timestamp` (seconds; floor division).
pub open spec fn epoch_day(timestamp: int) -> int {
    timestamp / 86400
}

/// Whether chrono can represent the instant `timestamp`.
pub open spec fn in_calendar(timestamp: int) -> bool {
    MIN_EPOCH_DAY <= epoch_day(timestamp) <= MAX_EPOCH_DAY
}

/// The weekday (Monday = 0 ... Sunday = 6) of the UTC day holding `timestamp`,
/// counted from the Unix epoch, a Thursday.
pub open spec fn spec_weekday(timestamp: int) -> int {
    (epoch_day(timestamp) + 3) % 7
}

/// The weekday chrono reports for `timestamp`: that of its UTC day when chrono
/// can represent the instant, else that of the Unix epoch (a Thursday).
pub open spec fn chrono_weekday(timestamp: int) -> int {
    if in_calendar(timestamp) {
        spec_weekday(timestamp)
    } else {
        3
    }
}

/// Whether day number `day` (days since the Unix epoch) is a Thursday.
pub open spec fn is_thursday(day: int) -> bool {
    day % 7 == 0
}

/// Days from weekday `weekday` forward to the next Thursday (0 on a Thursday).
pub open spec fn spec_days_until_thursday(weekday: int) -> int {
    (3 - weekday) % 7
}

/// chrono: `DateTime::from_timestamp(timestamp, 0)`, falling back to the Unix
/// epoch when chrono cannot represent the instant (`None`), then the weekday
/// of its UTC date counted from Monday. The contract claims the weekday of the
/// UTC day holding the timestamp within chrono's calendar
/// (`MIN_EPOCH_DAY..=MAX_EPOCH_DAY`), and the epoch's weekday, Thursday,
/// outside it.
#[verifier::external_body]
fn utc_weekday(timestamp: i64) -> (w: u32)
    ensures
        w == chrono_weekday(timestamp as int),
{
    chrono::DateTime::from_timestamp(timestamp, 0)
        .unwrap_or_default()
        .naive_utc()
        .date()
        .weekday()
        .num_days_from_monday()
}

/// Counts the days from weekday `weekday` to the next Thursday by stepping
/// one day at a time.
pub fn days_until_thursday(weekday: u32) -> (d: u32)
    requires
        weekday < 7,
    ensures
        d == spec_days_until_thursday(weekday as int),
        d < 7,
        (weekday + d) % 7 == 3,
{
    let mut day = weekday;
    let mut d: u32 = 0;
    while day != 3
        invariant
            day < 7,
            d < 7,
            day == (weekday + d) % 7,
            d <= (3 - weekday) % 7,
        decreases 7 - d,
    {
        day = if day == 6 {
            0
        } else {
            day + 1
        };
        d = d + 1;
    }
    d
}

/// Whether walking day by day from the UTC day of `timestamp` to the next
/// Thursday would step past the last day of chrono's calendar (which happens
/// only in its last four days, Friday to Monday).
pub open spec fn expiry_leaves_calendar(timestamp: int) -> bool {
    in_calendar(timestamp) && epoch_day(timestamp) + spec_days_until_thursday(
        chrono_weekday(timestamp),
    ) > MAX_EPOCH_DAY
}

/// Whole days from the UTC day of `timestamp` to the next Thursday expiry
/// (0 on a Thursday). An instant chrono cannot represent counts as the Unix
/// epoch, a Thursday, with 0 days left. `None` where the next Thursday lies
/// past the end of chrono's calendar.
pub fn days_to_expiry(timestamp: i64) -> (r: Option<u32>)
    ensures
        r is None <==> expiry_leaves_calendar(timestamp as int),
        r matches Some(d) ==> d == spec_days_until_thursday(chrono_weekday(timestamp as int)),
{
    let w = utc_weekday(timestamp);
    let d = days_until_thursday(w);
    if LAST_EXPIRY_SECOND < timestamp && timestamp <= MAX_CALENDAR_SECOND {
        assert(in_calendar(timestamp as int));
        assert(MAX_EPOCH_DAY - 3 <= epoch_day(timestamp as int) <= MAX_EPOCH_DAY);
        None
    } else {
        assert(!expiry_leaves_calendar(timestamp as int));
        Some(d)
    }
}

/// Expiry always falls on a Thursday: moving `days_to_expiry` days forward
/// from the day of `timestamp` lands on a day whose number since the epoch is
/// a multiple of seven, and no earlier day does.
pub proof fn lemma_expiry_is_thursday(timestamp: int)
    ensures
        is_thursday(timestamp / 86400 + spec_days_until_thursday(spec_weekday(timestamp))),
        forall|e: int|
            0 <= e < spec_days_until_thursday(spec_weekday(timestamp)) ==> !is_thursday(
                #[trigger] (timestamp / 86400 + e),
            ),
{
}

/// The Unix time (seconds, UTC) that chrono reads from `text` in the bar
/// timestamp format `%Y-%m-%d %H:%M:%S`, or `None` when it does not parse.
pub uninterp spec fn parsed_utc_seconds(text: Seq<char>) -> Option<i64>;

/// chrono: `NaiveDateTime::parse_from_str(text, "%Y-%m-%d %H:%M:%S")`, read as
/// a UTC instant and turned into Unix seconds with `and_utc().timestamp()`.
/// The contract claims only that the result is a function of the text
/// (`parsed_utc_seconds`); which texts parse, and to what, is chrono's.
#[verifier::external_body]
fn parse_utc_seconds(text: &str) -> (r: Option<i64>)
    ensures
        r == parsed_utc_seconds(text@),
{
    match chrono::NaiveDateTime::parse_from_str(text, "%Y-%m-%d %H:%M:%S") {
        Ok(dt) => Some(dt.and_utc().timestamp()),
        Err(_) => None,
    }
}

/// The timestamp a bar time written `text` reads as: chrono's reading, or
/// the Unix epoch, 0, when the text does not parse.
pub open spec fn spec_bar_timestamp(text: Seq<char>) -> i64 {
    match parsed_utc_seconds(text) {
        Some(s) => s,
        None => 0,
    }
}

/// The timestamp of a bar whose time is written `text`
/// (`%Y-%m-%d %H:%M:%S`, UTC); text that does not parse reads as the Unix
/// epoch, 0.
pub fn bar_timestamp(text: &str) -> (t: i64)
    ensures
        t == spec_bar_timestamp(text@),
        parsed_utc_seconds(text@) matches Some(secs) ==> t == secs,
        parsed_utc_seconds(text@) is None ==> t == 0,
{
    match parse_utc_seconds(text) {
        Some(s) => s,
        None => 0,
    }
}

/// The text chrono writes for the UTC instant `timestamp` (seconds) in
/// format `format`, or `None` when chrono cannot represent the instant.
pub uninterp spec fn utc_text(timestamp: i64, format: Seq<char>) -> Option<Seq<char>>;

/// The date format of report labels.
pub open spec fn date_format() -> Seq<char> {
    "%Y-%m-%d"@
}

/// The date-and-minute format of report rows.
pub open spec fn date_minute_format() -> Seq<char> {
    "%Y-%m-%d %H:%M"@
}

/// chrono: `DateTime::from_timestamp(timestamp, 0)` and, when that instant
/// exists, `format(format).to_string()`. The contract claims that the result
/// is a function of the two arguments (`utc_text`) and that the instant is
/// representable exactly when its day lies in chrono's calendar
/// (`MIN_EPOCH_DAY..=MAX_EPOCH_DAY`), as `from_timestamp` checks it. It is called only with the two report formats,
/// which chrono can always write.
#[verifier::external_body]
fn format_utc(timestamp: i64, format: &str) -> (r: Option<String>)
    requires
        format@ == date_format() || format@ == date_minute_format(),
    ensures
        r matches Some(s) ==> utc_text(timestamp, format@) == Some(s@),
        r is None ==> utc_text(timestamp, format@) is None,
        r is Some <==> in_calendar(timestamp as int),
{
    match chrono::DateTime::from_timestamp(timestamp, 0) {
        Some(dt) => Some(dt.format(format).to_string()),
        None => None,
    }
}

/// The text of `timestamp` in `format`, falling back to the Unix epoch when
/// chrono cannot represent the instant.
pub open spec fn utc_label(timestamp: i64, format: Seq<char>) -> Seq<char> {
    match utc_text(timestamp, format) {
        Some(s) => s,
        None => utc_text(0, format).unwrap(),
    }
}

fn label(timestamp: i64, format: &str) -> (s: String)
    requires
        format@ == date_format() || format@ == date_minute_format(),
    ensures
        s@ == utc_label(timestamp, format@),
        in_calendar(timestamp as int) ==> utc_text(timestamp, format@) == Some(s@),
        !in_calendar(timestamp as int) ==> utc_text(0, format@) == Some(s@),
{
    match format_utc(timestamp, format) {
        Some(s) => s,
        None => match format_utc(0, format) {
            Some(s) => s,
            None => String::new(),
        },
    }
}

/// The UTC date of `timestamp` as `%Y-%m-%d` (the epoch's date when chrono
/// cannot represent the instant).
pub fn date_label(timestamp: i64) -> (s: String)
    ensures
        s@ == utc_label(timestamp, date_format()),
        in_calendar(timestamp as int) ==> utc_text(timestamp, date_format()) == Some(s@),
        !in_calendar(timestamp as int) ==> utc_text(0, date_format()) == Some(s@),
{
    label(timestamp, "%Y-%m-%d")
}

/// The UTC date and time of `timestamp` as `%Y-%m-%d %H:%M` (the epoch's
/// when chrono cannot represent the instant).
pub fn date_minute_label(timestamp: i64) -> (s: String)
    ensures
        s@ == utc_label(timestamp, date_minute_format()),
        in_calendar(timestamp as int) ==> utc_text(timestamp, date_minute_format()) == Some(s@),
        !in_calendar(timestamp as int) ==> utc_text(0, date_minute_format()) == Some(s@),
{
    label(timestamp, "%Y-%m-%d %H:%M")
}

/// A bar time reads as the instant chrono parses from it: a text that parses
/// to `secs` gives exactly `secs` (no shift, for any clock time), and only
/// text that does not parse reads as the epoch. So two bar times read in the
/// order, and with the distance, of the instants chrono parses from them.
pub proof fn lemma_bar_timestamp_is_parse(text: Seq<char>, other: Seq<char>)
    ensures
        parsed_utc_seconds(text) matches Some(secs) ==> spec_bar_timestamp(text) == secs,
        parsed_utc_seconds(text) is None ==> spec_bar_timestamp(text) == 0,
        parsed_utc_seconds(text) is Some && parsed_utc_seconds(other) is Some ==> spec_bar_timestamp(
            other,
        ) - spec_bar_timestamp(text) == parsed_utc_seconds(other).unwrap() - parsed_utc_seconds(
            text,
        ).unwrap(),
{
}

/// A label is chrono's text of the very instant it labels: when chrono can
/// write `timestamp` in `format` the label is that text, whatever the time
/// of day, and only an instant chrono cannot write takes the epoch's text.
pub proof fn lemma_label_is_instant_text(timestamp: i64, format: Seq<char>)
    ensures
        utc_text(timestamp, format) matches Some(text) ==> utc_label(timestamp, format) == text,
        utc_text(timestamp, format) is None ==> utc_label(timestamp, format) == utc_text(
            0,
            format,
        ).unwrap(),
{
}

} // verus!
