use vstd::prelude::*;

use vstd::arithmetic::div_mod::lemma_mod_multiples_vanish;

use crate::page::{ends_with, has_suffix};
use crate::text::{parse_i64, parse_i64_spec, parse_u32, parse_u32_spec, same_text};
use crate::user::Timestamp;

verus! {

/// How far the site's local time (UTC+8) is ahead of UTC, in seconds.
pub const SITE_UTC_OFFSET: i64 = 28800;

/// The seconds since the epoch of a date and time read as UTC, when `text`
/// reads as a date and time in format `fmt`.
pub uninterp spec fn naive_datetime_of(text: Seq<char>, fmt: Seq<char>) -> Option<i64>;

/// The seconds since the epoch of midnight (read as UTC) of a date, when
/// `text` reads as a date in format `fmt`.
pub uninterp spec fn naive_date_of(text: Seq<char>, fmt: Seq<char>) -> Option<i64>;

/// The instant `months` calendar months before `now`, when it is in range.
pub uninterp spec fn months_before_of(now: i64, months: u32) -> Option<i64>;

/// The groups of the first match of `pattern` in `text` (group 0 first; `None`
/// for a group that did not take part), or `None` when nothing matches.
pub uninterp spec fn captures_of(pattern: Seq<char>, text: Seq<char>) -> Option<Seq<Option<Seq<char>>>>;

/// Relies on chrono's `NaiveDateTime::parse_from_str`, read as UTC by `and_utc().timestamp()`.
#[verifier::external_body]
fn naive_datetime_secs(text: &str, fmt: &str) -> (r: Option<i64>)
    ensures
        r == naive_datetime_of(text@, fmt@),
{
    chrono::NaiveDateTime::parse_from_str(text, fmt).ok().map(|d| d.and_utc().timestamp())
}

/// Relies on chrono's `NaiveDate::parse_from_str`, taken at midnight UTC.
#[verifier::external_body]
fn naive_date_secs(text: &str, fmt: &str) -> (r: Option<i64>)
    ensures
        r == naive_date_of(text@, fmt@),
{
    chrono::NaiveDate::parse_from_str(text, fmt).ok().map(|d| d.and_time(chrono::NaiveTime::MIN).and_utc().timestamp())
}

/// Relies on chrono's `DateTime::<Utc>::from_timestamp` and `checked_sub_months`.
#[verifier::external_body]
fn months_before(now: i64, months: u32) -> (r: Option<i64>)
    ensures
        r == months_before_of(now, months),
{
    chrono::DateTime::from_timestamp(now, 0)
        .and_then(|d| d.checked_sub_months(chrono::Months::new(months)))
        .map(|d| d.timestamp())
}

/// Relies on regex's `Regex::new` and `Regex::captures`: every group of the
/// first match, as text.
#[verifier::external_body]
fn captures(pattern: &str, text: &str) -> (r: Option<Vec<Option<String>>>)
    ensures
        match r {
            Some(v) => captures_of(pattern@, text@) matches Some(c) && c.len() == v@.len() && forall|i: int|
                0 <= i < v@.len() ==> (match #[trigger] v@[i] {
                    Some(t) => c[i] == Some(t@),
                    None => c[i] is None,
                }),
            None => captures_of(pattern@, text@) is None,
        },
{
    let re = regex::Regex::new(pattern).ok()?;
    re.captures(text).map(|c| c.iter().map(|m| m.map(|m| m.as_str().to_string())).collect())
}

/// The language of a relative time such as `3d ago` or `3天前`.
#[derive(PartialEq, Eq, Structural, Clone, Copy, Debug)]
pub enum AgoLang {
    Eng,
    Chs,
}

pub open spec fn ago_pattern(lang: AgoLang) -> Seq<char> {
    match lang {
        AgoLang::Eng => r"^\s*(?:(?P<year>\d+)y\s*)?(?:(?P<month>\d+)mo\s*)?(?:(?P<day>\d+)d\s*)?(?:(?P<hour>\d+)h\s*)?(?:(?P<minute>\d+)m\s*)?(?:(?P<second>\d+)s\s*)?ago\s*$"@,
        AgoLang::Chs => r"^\s*(?:(?P<year>\d+)年\s*)?(?:(?P<month>\d+)月\s*)?(?:(?P<day>\d+)天\s*)?(?:(?P<hour>\d+)小时\s*)?(?:(?P<minute>\d+)分钟\s*)?(?:(?P<second>\d+)秒\s*)?前\s*$"@,
    }
}

/// Why a time could not be read.
#[derive(PartialEq, Eq, Structural, Clone, Copy, Debug)]
pub enum TimeError {
    /// The text is in no known form.
    Unreadable,
    /// The time it names is out of range.
    OutOfRange,
}

pub open spec fn in_range(v: int) -> Result<Timestamp, TimeError> {
    if i64::MIN <= v && v <= i64::MAX {
        Ok(v as i64)
    } else {
        Err(TimeError::OutOfRange)
    }
}

/// Midnight of the UTC day of `now`, read as the site's local time.
pub open spec fn today_spec(now: int) -> int {
    now - now % 86400 - 28800
}

/// The number in group `i`, or 0 when the group is absent or not a `u32`.
pub open spec fn group_u32(c: Seq<Option<Seq<char>>>, i: int) -> int {
    if 0 <= i < c.len() && c[i] is Some && parse_u32_spec(c[i]->Some_0) is Some {
        parse_u32_spec(c[i]->Some_0)->Some_0 as int
    } else {
        0
    }
}

/// The number in group `i`, or 0 when the group is absent or not an `i64`.
pub open spec fn group_i64(c: Seq<Option<Seq<char>>>, i: int) -> int {
    if 0 <= i < c.len() && c[i] is Some && parse_i64_spec(c[i]->Some_0) is Some {
        parse_i64_spec(c[i]->Some_0)->Some_0 as int
    } else {
        0
    }
}

/// The instant that a relative time names: years and months back by the
/// calendar, then days, hours, minutes and seconds back by the clock.
pub open spec fn ago_spec(text: Seq<char>, lang: AgoLang, now: Timestamp) -> Result<Timestamp, TimeError> {
    match captures_of(ago_pattern(lang), text) {
        None => Err(TimeError::Unreadable),
        Some(c) => {
            let months = group_u32(c, 1) * 12 + group_u32(c, 2);
            let secs = group_i64(c, 3) * 86400 + group_i64(c, 4) * 3600 + group_i64(c, 5) * 60 + group_i64(c, 6);
            if months > u32::MAX {
                Err(TimeError::OutOfRange)
            } else {
                match months_before_of(now, months as u32) {
                    None => Err(TimeError::OutOfRange),
                    Some(base) => in_range(base - secs),
                }
            }
        },
    }
}

/// The instant that a time shown by the site names, at `now`: "today" and
/// "yesterday", relative times, or a local date and time in one of three forms.
pub open spec fn time_spec(text: Seq<char>, now: Timestamp) -> Result<Timestamp, TimeError> {
    if text == "今天"@ {
        in_range(today_spec(now as int))
    } else if text == "昨天"@ {
        in_range(today_spec(now as int) - 86400)
    } else if ends_with(text, "ago"@) {
        ago_spec(text, AgoLang::Eng, now)
    } else if ends_with(text, "前"@) {
        ago_spec(text, AgoLang::Chs, now)
    } else if naive_datetime_of(text, "%Y-%m-%d %H:%M:%S"@) is Some {
        in_range(naive_datetime_of(text, "%Y-%m-%d %H:%M:%S"@)->Some_0 - 28800)
    } else if naive_datetime_of(text, "%Y-%m-%d %H:%M"@) is Some {
        in_range(naive_datetime_of(text, "%Y-%m-%d %H:%M"@)->Some_0 - 28800)
    } else if naive_date_of(text, "%Y-%m-%d"@) is Some {
        in_range(naive_date_of(text, "%Y-%m-%d"@)->Some_0 - 28800)
    } else {
        Err(TimeError::Unreadable)
    }
}

fn checked(v: i128) -> (r: Result<Timestamp, TimeError>)
    ensures
        r == in_range(v as int),
{
    if v >= i64::MIN as i128 && v <= i64::MAX as i128 {
        Ok(v as i64)
    } else {
        Err(TimeError::OutOfRange)
    }
}

fn today_wide(now: Timestamp) -> (r: i128)
    ensures
        r as int == today_spec(now as int),
{
    let k: i128 = 86400 * 1_125_899_906_842_624;
    let shifted = (now as i128 + k) as u128;
    let rem = (shifted % 86400) as i128;
    proof {
        lemma_mod_multiples_vanish(1_125_899_906_842_624, now as int, 86400);
        assert(rem == (now as int) % 86400);
    }
    now as i128 - rem - SITE_UTC_OFFSET as i128
}

/// Midnight of the UTC day of `now`, read as the site's local time.
pub fn today(now: Timestamp) -> (r: Result<Timestamp, TimeError>)
    ensures
        r == in_range(today_spec(now as int)),
{
    checked(today_wide(now))
}

fn group_u32_at(c: &Vec<Option<String>>, i: usize) -> (r: u32)
    ensures
        r as int == group_u32(c@.map_values(|o: Option<String>| match o {
            Some(t) => Some(t@),
            None => None,
        }), i as int),
{
    if i < c.len() {
        match &c[i] {
            Some(t) => match parse_u32(t.as_str()) {
                Some(v) => v,
                None => 0,
            },
            None => 0,
        }
    } else {
        0
    }
}

fn group_i64_at(c: &Vec<Option<String>>, i: usize) -> (r: i64)
    ensures
        r as int == group_i64(c@.map_values(|o: Option<String>| match o {
            Some(t) => Some(t@),
            None => None,
        }), i as int),
{
    if i < c.len() {
        match &c[i] {
            Some(t) => match parse_i64(t.as_str()) {
                Some(v) => v,
                None => 0,
            },
            None => 0,
        }
    } else {
        0
    }
}

/// Reads a relative time such as `1d 3h ago` or `1月20天前`, counting back from `now`.
pub fn parse_ago_time(text: &str, lang: AgoLang, now: Timestamp) -> (r: Result<Timestamp, TimeError>)
    ensures
        r == ago_spec(text@, lang, now),
{
    let pattern = match lang {
        AgoLang::Eng => r"^\s*(?:(?P<year>\d+)y\s*)?(?:(?P<month>\d+)mo\s*)?(?:(?P<day>\d+)d\s*)?(?:(?P<hour>\d+)h\s*)?(?:(?P<minute>\d+)m\s*)?(?:(?P<second>\d+)s\s*)?ago\s*$",
        AgoLang::Chs => r"^\s*(?:(?P<year>\d+)年\s*)?(?:(?P<month>\d+)月\s*)?(?:(?P<day>\d+)天\s*)?(?:(?P<hour>\d+)小时\s*)?(?:(?P<minute>\d+)分钟\s*)?(?:(?P<second>\d+)秒\s*)?前\s*$",
    };
    let caps = match captures(pattern, text) {
        Some(c) => c,
        None => return Err(TimeError::Unreadable),
    };
    let ghost c = caps@.map_values(|o: Option<String>| match o {
        Some(t) => Some(t@),
        None => None,
    });
    proof {
        assert(c =~= captures_of(ago_pattern(lang), text@)->Some_0);
    }
    let years = group_u32_at(&caps, 1) as u64;
    let month = group_u32_at(&caps, 2) as u64;
    let months = years * 12 + month;
    if months > u32::MAX as u64 {
        return Err(TimeError::OutOfRange);
    }
    let days = group_i64_at(&caps, 3) as i128;
    let hours = group_i64_at(&caps, 4) as i128;
    let minutes = group_i64_at(&caps, 5) as i128;
    let seconds = group_i64_at(&caps, 6) as i128;
    let secs = days * 86400 + hours * 3600 + minutes * 60 + seconds;
    match months_before(now, months as u32) {
        None => Err(TimeError::OutOfRange),
        Some(base) => checked(base as i128 - secs),
    }
}

/// The instant `months` calendar months before `now`.
pub fn months_ago(now: Timestamp, months: u32) -> (r: Result<Timestamp, TimeError>)
    ensures
        r == match months_before_of(now, months) {
            Some(t) => Ok::<Timestamp, TimeError>(t),
            None => Err(TimeError::OutOfRange),
        },
{
    match months_before(now, months) {
        Some(t) => Ok(t),
        None => Err(TimeError::OutOfRange),
    }
}

/// Reads a time as the site shows it, at `now`.
pub fn parse_time(text: &str, now: Timestamp) -> (r: Result<Timestamp, TimeError>)
    ensures
        r == time_spec(text@, now),
{
    if same_text(text, "今天") {
        return today(now);
    }
    if same_text(text, "昨天") {
        return checked(today_wide(now) - 86400);
    }
    if has_suffix(text, "ago") {
        return parse_ago_time(text, AgoLang::Eng, now);
    }
    if has_suffix(text, "前") {
        return parse_ago_time(text, AgoLang::Chs, now);
    }
    if let Some(t) = naive_datetime_secs(text, "%Y-%m-%d %H:%M:%S") {
        return checked(t as i128 - SITE_UTC_OFFSET as i128);
    }
    if let Some(t) = naive_datetime_secs(text, "%Y-%m-%d %H:%M") {
        return checked(t as i128 - SITE_UTC_OFFSET as i128);
    }
    match naive_date_secs(text, "%Y-%m-%d") {
        Some(t) => checked(t as i128 - SITE_UTC_OFFSET as i128),
        None => Err(TimeError::Unreadable),
    }
}

} // verus!
