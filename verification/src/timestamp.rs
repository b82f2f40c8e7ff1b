//! Reading the UTC timestamp that a post's file name carries, and deriving
//! from it the calendar path and the headings of the post.
//!
//! A post's file name has the form `YYYY-MM-DD_HH-MM-SS_UTC` followed by
//! anything that holds no further `_UTC`: every field is zero-padded, the
//! clock has 24 hours.

use vstd::prelude::*;
use crate::calendar::{
    is_calendar_date,
    month_label,
    month_name,
    weekday_label,
    weekday_name,
    weekday_of_date,
    weekday_on,
};
use crate::error::ArchiveError;
use crate::names::{file_name_of, find_file_name};
use crate::text::{
    append_range,
    append_str,
    chars_of,
    is_digit,
    matches_at,
    occurs_at,
    string_of,
};

verus! {

/// The marker that ends the timestamp in a file name.
pub open spec fn marker() -> Seq<char> {
    "_UTC"@
}

/// The position of the last marker that begins before position `n` of
/// `name`, or -1 if there is none.
pub open spec fn last_marker(name: Seq<char>, n: int) -> int
    decreases n,
{
    if n <= 0 {
        -1
    } else if occurs_at(name, n - 1, marker()) {
        n - 1
    } else {
        last_marker(name, n - 1)
    }
}

/// What stands before the last marker of `name`, if it has a marker.
pub open spec fn stamp_of(name: Seq<char>) -> Option<Seq<char>> {
    let at = last_marker(name, name.len() as int);
    if at >= 0 {
        Some(name.take(at))
    } else {
        None
    }
}

/// The number that a decimal digit stands for.
pub open spec fn digit_value(c: char) -> int {
    c as int - 48
}

/// Whether two decimal digits stand at `at` and behind it.
pub open spec fn two_digits(s: Seq<char>, at: int) -> bool {
    is_digit(s[at]) && is_digit(s[at + 1])
}

/// The number written by the two digits at `at`.
pub open spec fn two_digit_value(s: Seq<char>, at: int) -> int {
    10 * digit_value(s[at]) + digit_value(s[at + 1])
}

/// Whether `s` is laid out as `YYYY-MM-DD_HH-MM-SS`.
pub open spec fn has_layout(s: Seq<char>) -> bool {
    &&& s.len() == 19
    &&& two_digits(s, 0)
    &&& two_digits(s, 2)
    &&& s[4] == '-'
    &&& two_digits(s, 5)
    &&& s[7] == '-'
    &&& two_digits(s, 8)
    &&& s[10] == '_'
    &&& two_digits(s, 11)
    &&& s[13] == '-'
    &&& two_digits(s, 14)
    &&& s[16] == '-'
    &&& two_digits(s, 17)
}

/// The year that the timestamp `s` gives.
pub open spec fn stamp_year(s: Seq<char>) -> int {
    100 * two_digit_value(s, 0) + two_digit_value(s, 2)
}

/// The month that the timestamp `s` gives.
pub open spec fn stamp_month(s: Seq<char>) -> int {
    two_digit_value(s, 5)
}

/// The day of the month that the timestamp `s` gives.
pub open spec fn stamp_day(s: Seq<char>) -> int {
    two_digit_value(s, 8)
}

/// The hour that the timestamp `s` gives.
pub open spec fn stamp_hour(s: Seq<char>) -> int {
    two_digit_value(s, 11)
}

/// The minute that the timestamp `s` gives.
pub open spec fn stamp_minute(s: Seq<char>) -> int {
    two_digit_value(s, 14)
}

/// The second that the timestamp `s` gives.
pub open spec fn stamp_second(s: Seq<char>) -> int {
    two_digit_value(s, 17)
}

/// Whether `s` is a timestamp: laid out as `YYYY-MM-DD_HH-MM-SS`, on a date
/// that the calendar has, at a time of the 24-hour clock. A second of 60
/// is a leap second.
pub open spec fn is_timestamp(s: Seq<char>) -> bool {
    &&& has_layout(s)
    &&& is_calendar_date(stamp_year(s), stamp_month(s), stamp_day(s))
    &&& stamp_hour(s) < 24
    &&& stamp_minute(s) < 60
    &&& stamp_second(s) <= 60
}

/// Whether `name` is the file name of a post: it has a marker, and what
/// stands before its last marker is a timestamp.
pub open spec fn names_post(name: Seq<char>) -> bool {
    stamp_of(name) is Some && is_timestamp(stamp_of(name)->0)
}

/// A moment of the calendar, to the second, with its day of the week
/// (Monday being 0).
#[derive(Clone, Copy, Debug, PartialEq, Eq, Structural)]
pub struct Timestamp {
    pub year: u16,
    pub month: u8,
    pub day: u8,
    pub hour: u8,
    pub minute: u8,
    pub second: u8,
    pub weekday: u8,
}

impl Timestamp {
    /// The date exists, the time is one of the 24-hour clock, and the
    /// weekday is that of the date.
    pub open spec fn wf(&self) -> bool {
        &&& self.year <= 9999
        &&& is_calendar_date(self.year as int, self.month as int, self.day as int)
        &&& self.hour < 24
        &&& self.minute < 60
        &&& self.second <= 60
        &&& self.weekday < 7
        &&& self.weekday == weekday_of_date(self.year as int, self.month as int, self.day as int)
    }

    /// The moment with these fields, or `None` where there is no such date
    /// or time.
    pub fn new(year: u16, month: u8, day: u8, hour: u8, minute: u8, second: u8) -> (made: Option<
        Timestamp,
    >)
        ensures
            made is Some <==> {
                &&& year <= 9999
                &&& is_calendar_date(year as int, month as int, day as int)
                &&& hour < 24
                &&& minute < 60
                &&& second <= 60
            },
            made is Some ==> made->0.wf() && made->0 == (Timestamp {
                weekday: made->0.weekday,
                year,
                month,
                day,
                hour,
                minute,
                second,
            }),
    {
        if year > 9999 || hour >= 24 || minute >= 60 || second > 60 {
            return None;
        }
        match weekday_on(year as i32, month as u32, day as u32) {
            Some(weekday) => Some(Timestamp { year, month, day, hour, minute, second, weekday }),
            None => None,
        }
    }
}

/// The moment that the timestamp `s` names.
pub open spec fn timestamp_of(s: Seq<char>) -> Timestamp {
    Timestamp {
        year: stamp_year(s) as u16,
        month: stamp_month(s) as u8,
        day: stamp_day(s) as u8,
        hour: stamp_hour(s) as u8,
        minute: stamp_minute(s) as u8,
        second: stamp_second(s) as u8,
        weekday: weekday_of_date(stamp_year(s), stamp_month(s), stamp_day(s)) as u8,
    }
}

/// The decimal digit for a number below ten.
pub open spec fn digit_char(d: int) -> char {
    (d + 48) as char
}

/// A number below 100 in two digits, zero-padded.
pub open spec fn two_digit_text(n: int) -> Seq<char> {
    seq![digit_char(n / 10), digit_char(n % 10)]
}

/// A number below 100 in two places, padded with a space.
pub open spec fn space_padded_text(n: int) -> Seq<char> {
    seq![if n < 10 { ' ' } else { digit_char(n / 10) }, digit_char(n % 10)]
}

/// A number below 10000 in four digits, zero-padded.
pub open spec fn four_digit_text(n: int) -> Seq<char> {
    two_digit_text(n / 100) + two_digit_text(n % 100)
}

/// The hour of the 12-hour clock for an hour of the 24-hour clock.
pub open spec fn hour12(hour: int) -> int {
    if hour % 12 == 0 {
        12
    } else {
        hour % 12
    }
}

/// The half of the day that an hour of the 24-hour clock lies in.
pub open spec fn meridiem(hour: int) -> Seq<char> {
    if hour < 12 {
        "AM"@
    } else {
        "PM"@
    }
}

/// The date as `YYYY-MM-DD`.
pub open spec fn date_text(t: Timestamp) -> Seq<char> {
    four_digit_text(t.year as int) + seq!['-'] + two_digit_text(t.month as int) + seq!['-']
        + two_digit_text(t.day as int)
}

/// The date as the directory path `YYYY/MM/DD`.
pub open spec fn calendar_path_text(t: Timestamp) -> Seq<char> {
    four_digit_text(t.year as int) + seq!['/'] + two_digit_text(t.month as int) + seq!['/']
        + two_digit_text(t.day as int)
}

/// The date in long form, as in `Sunday, May 14, 2023`; a day below ten
/// has a space in front of it.
pub open spec fn title_text(t: Timestamp) -> Seq<char> {
    weekday_name(t.weekday as int) + seq![',', ' '] + month_name(t.month as int) + seq![' ']
        + space_padded_text(t.day as int) + seq![',', ' '] + four_digit_text(t.year as int)
}

/// The time of the 12-hour clock as `HH:MM AM` or `HH:MM PM`.
pub open spec fn time_text(t: Timestamp) -> Seq<char> {
    two_digit_text(hour12(t.hour as int)) + seq![':'] + two_digit_text(t.minute as int) + seq![
        ' ',
    ] + meridiem(t.hour as int)
}

/// The time of the 24-hour clock as `HH:MM:SS`.
pub open spec fn time_text_24h(t: Timestamp) -> Seq<char> {
    two_digit_text(t.hour as int) + seq![':'] + two_digit_text(t.minute as int) + seq![':']
        + two_digit_text(t.second as int)
}

fn digit_to_char(d: u8) -> (c: char)
    requires
        d < 10,
    ensures
        c == digit_char(d as int),
{
    (d + 48) as char
}

fn push_two_digits(out: &mut Vec<char>, n: u8)
    requires
        n < 100,
    ensures
        final(out)@ == old(out)@ + two_digit_text(n as int),
{
    out.push(digit_to_char(n / 10));
    out.push(digit_to_char(n % 10));
}

fn push_space_padded(out: &mut Vec<char>, n: u8)
    requires
        n < 100,
    ensures
        final(out)@ == old(out)@ + space_padded_text(n as int),
{
    if n < 10 {
        out.push(' ');
    } else {
        out.push(digit_to_char(n / 10));
    }
    out.push(digit_to_char(n % 10));
}

fn push_four_digits(out: &mut Vec<char>, n: u16)
    requires
        n <= 9999,
    ensures
        final(out)@ == old(out)@ + four_digit_text(n as int),
{
    push_two_digits(out, (n / 100) as u8);
    push_two_digits(out, (n % 100) as u8);
}

fn push_meridiem(out: &mut Vec<char>, hour: u8)
    ensures
        final(out)@ == old(out)@ + meridiem(hour as int),
{
    if hour < 12 {
        append_str(out, "AM");
    } else {
        append_str(out, "PM");
    }
}

fn to_hour12(hour: u8) -> (h: u8)
    ensures
        h == hour12(hour as int),
        1 <= h <= 12,
{
    if hour % 12 == 0 {
        12
    } else {
        hour % 12
    }
}

impl Timestamp {
    /// The date as `YYYY-MM-DD`.
    pub fn date_string(&self) -> (s: String)
        requires
            self.wf(),
        ensures
            s@ == date_text(*self),
    {
        let mut out: Vec<char> = Vec::new();
        push_four_digits(&mut out, self.year);
        out.push('-');
        push_two_digits(&mut out, self.month);
        out.push('-');
        push_two_digits(&mut out, self.day);
        string_of(&out)
    }

    /// The date as the directory path `YYYY/MM/DD`.
    pub fn calendar_path(&self) -> (s: String)
        requires
            self.wf(),
        ensures
            s@ == calendar_path_text(*self),
    {
        let mut out: Vec<char> = Vec::new();
        push_four_digits(&mut out, self.year);
        out.push('/');
        push_two_digits(&mut out, self.month);
        out.push('/');
        push_two_digits(&mut out, self.day);
        string_of(&out)
    }

    /// The date in long form: weekday, month, day and year.
    pub fn title_heading(&self) -> (s: String)
        requires
            self.wf(),
        ensures
            s@ == title_text(*self),
    {
        let mut out: Vec<char> = Vec::new();
        append_str(&mut out, weekday_label(self.weekday));
        out.push(',');
        out.push(' ');
        append_str(&mut out, month_label(self.month));
        out.push(' ');
        push_space_padded(&mut out, self.day);
        out.push(',');
        out.push(' ');
        push_four_digits(&mut out, self.year);
        string_of(&out)
    }

    /// The time of the 12-hour clock, zero-padded, with `AM` or `PM`.
    pub fn time_string(&self) -> (s: String)
        requires
            self.wf(),
        ensures
            s@ == time_text(*self),
    {
        let mut out: Vec<char> = Vec::new();
        push_two_digits(&mut out, to_hour12(self.hour));
        out.push(':');
        push_two_digits(&mut out, self.minute);
        out.push(' ');
        push_meridiem(&mut out, self.hour);
        string_of(&out)
    }

    /// The time of the 24-hour clock as `HH:MM:SS`.
    pub fn time_string_24h(&self) -> (s: String)
        requires
            self.wf(),
        ensures
            s@ == time_text_24h(*self),
    {
        let mut out: Vec<char> = Vec::new();
        push_two_digits(&mut out, self.hour);
        out.push(':');
        push_two_digits(&mut out, self.minute);
        out.push(':');
        push_two_digits(&mut out, self.second);
        string_of(&out)
    }
}

fn read_digit(s: &Vec<char>, i: usize) -> (digit: Option<u8>)
    requires
        i < s.len(),
    ensures
        match digit {
            Some(d) => is_digit(s@[i as int]) && d == digit_value(s@[i as int]) && d < 10,
            None => !is_digit(s@[i as int]),
        },
{
    let c = s[i];
    if '0' <= c && c <= '9' {
        Some((c as u32 - 48) as u8)
    } else {
        None
    }
}

fn read_two_digits(s: &Vec<char>, at: usize) -> (number: Option<u8>)
    requires
        at + 2 <= s.len(),
    ensures
        match number {
            Some(n) => two_digits(s@, at as int) && n == two_digit_value(s@, at as int) && n
                < 100,
            None => !two_digits(s@, at as int),
        },
{
    match read_digit(s, at) {
        Some(tens) => match read_digit(s, at + 1) {
            Some(ones) => Some(10 * tens + ones),
            None => None,
        },
        None => None,
    }
}

/// Reads the timestamp `stamp`.
pub fn parse_stamp(stamp: &Vec<char>) -> (parsed: Option<Timestamp>)
    ensures
        match parsed {
            Some(t) => is_timestamp(stamp@) && t == timestamp_of(stamp@) && t.wf(),
            None => !is_timestamp(stamp@),
        },
{
    if stamp.len() != 19 {
        return None;
    }
    if stamp[4] != '-' || stamp[7] != '-' || stamp[10] != '_' || stamp[13] != '-' || stamp[16]
        != '-' {
        return None;
    }
    let century = match read_two_digits(stamp, 0) {
        Some(n) => n,
        None => { return None; },
    };
    let decade = match read_two_digits(stamp, 2) {
        Some(n) => n,
        None => { return None; },
    };
    let month = match read_two_digits(stamp, 5) {
        Some(n) => n,
        None => { return None; },
    };
    let day = match read_two_digits(stamp, 8) {
        Some(n) => n,
        None => { return None; },
    };
    let hour = match read_two_digits(stamp, 11) {
        Some(n) => n,
        None => { return None; },
    };
    let minute = match read_two_digits(stamp, 14) {
        Some(n) => n,
        None => { return None; },
    };
    let second = match read_two_digits(stamp, 17) {
        Some(n) => n,
        None => { return None; },
    };
    let year: u16 = 100 * (century as u16) + decade as u16;
    Timestamp::new(year, month, day, hour, minute, second)
}

/// Finds the last marker of `name`.
pub fn find_marker(name: &Vec<char>) -> (at: Option<usize>)
    ensures
        match at {
            Some(p) => last_marker(name@, name.len() as int) == p && p < name.len(),
            None => last_marker(name@, name.len() as int) == -1,
        },
{
    let pattern = chars_of("_UTC");
    let mut n: usize = name.len();
    while n > 0
        invariant
            n <= name.len(),
            pattern@ == marker(),
            last_marker(name@, name.len() as int) == last_marker(name@, n as int),
        decreases n,
    {
        if matches_at(name, n - 1, &pattern) {
            return Some(n - 1);
        }
        n -= 1;
    }
    None
}

/// Reads the timestamp that the file name `name` carries.
pub fn parse_name(name: &Vec<char>) -> (parsed: Option<Timestamp>)
    ensures
        match parsed {
            Some(t) => names_post(name@) && t == timestamp_of(stamp_of(name@)->0) && t.wf(),
            None => !names_post(name@),
        },
{
    match find_marker(name) {
        Some(at) => {
            let mut stamp: Vec<char> = Vec::new();
            append_range(&mut stamp, name, 0, at);
            assert(stamp@ == name@.take(at as int));
            parse_stamp(&stamp)
        },
        None => None,
    }
}

/// What is known of a post from its file name alone.
#[derive(Debug)]
pub struct PostKey {
    /// The file name that the key was read from.
    pub source_path: String,
    /// The directory of the post's day, `YYYY/MM/DD`.
    pub calendar_path: String,
    /// The date in long form.
    pub title_heading: String,
    /// The date as `YYYY-MM-DD`.
    pub date_string: String,
    /// The time of the 12-hour clock, with `AM` or `PM`.
    pub time_string: String,
    /// The time of the 24-hour clock.
    pub time_string_24h: String,
}

/// A post key as plain text.
pub struct PostKeyView {
    pub source_path: Seq<char>,
    pub calendar_path: Seq<char>,
    pub title_heading: Seq<char>,
    pub date_string: Seq<char>,
    pub time_string: Seq<char>,
    pub time_string_24h: Seq<char>,
}

impl View for PostKey {
    type V = PostKeyView;

    open spec fn view(&self) -> PostKeyView {
        PostKeyView {
            source_path: self.source_path@,
            calendar_path: self.calendar_path@,
            title_heading: self.title_heading@,
            date_string: self.date_string@,
            time_string: self.time_string@,
            time_string_24h: self.time_string_24h@,
        }
    }
}

impl PostKey {
    /// The key is that of the post whose file name it holds as its
    /// source: there is no key but of a post.
    pub open spec fn wf(&self) -> bool {
        names_post(self.source_path@) && self@ == post_key_of(self.source_path@)
    }

    /// A copy of the key.
    pub fn duplicate(&self) -> (copy: PostKey)
        ensures
            copy@ == self@,
    {
        PostKey {
            source_path: self.source_path.clone(),
            calendar_path: self.calendar_path.clone(),
            title_heading: self.title_heading.clone(),
            date_string: self.date_string.clone(),
            time_string: self.time_string.clone(),
            time_string_24h: self.time_string_24h.clone(),
        }
    }
}

/// The key of the post whose file name is `name`.
pub open spec fn post_key_of(name: Seq<char>) -> PostKeyView {
    let t = timestamp_of(stamp_of(name)->0);
    PostKeyView {
        source_path: name,
        calendar_path: calendar_path_text(t),
        title_heading: title_text(t),
        date_string: date_text(t),
        time_string: time_text(t),
        time_string_24h: time_text_24h(t),
    }
}

/// What extraction owes for the file name `name`: the key of the post
/// where `name` names one, and `MalformedTimestamp` where it does not.
pub open spec fn extraction_of(name: Seq<char>, outcome: Result<PostKey, ArchiveError>) -> bool {
    match outcome {
        Ok(key) => names_post(name) && key@ == post_key_of(name) && key.wf(),
        Err(e) => !names_post(name) && e == ArchiveError::MalformedTimestamp,
    }
}

/// Reads the key of a post from its file name.
pub fn extract_datetime_from_name(input: &str) -> (outcome: Result<PostKey, ArchiveError>)
    ensures
        extraction_of(input@, outcome),
{
    let name = chars_of(input);
    match parse_name(&name) {
        Some(t) => Ok(
            PostKey {
                source_path: string_of(&name),
                calendar_path: t.calendar_path(),
                title_heading: t.title_heading(),
                date_string: t.date_string(),
                time_string: t.time_string(),
                time_string_24h: t.time_string_24h(),
            },
        ),
        None => Err(ArchiveError::MalformedTimestamp),
    }
}

/// Whether the path `path` leads to a post: it names a file, and the
/// file's name is that of a post.
pub open spec fn leads_to_post(path: Seq<char>) -> bool {
    file_name_of(path) is Some && names_post(file_name_of(path)->0)
}

/// The moment that the file at `path` is named after.
pub open spec fn moment_of_path(path: Seq<char>) -> Timestamp {
    timestamp_of(stamp_of(file_name_of(path)->0)->0)
}

/// Reads the timestamp from the name of the file at `file_path`.
pub fn get_datetime_from_string(file_path: &str) -> (outcome: Result<Timestamp, ArchiveError>)
    ensures
        match outcome {
            Ok(t) => leads_to_post(file_path@) && t == moment_of_path(file_path@) && t.wf(),
            Err(e) => !leads_to_post(file_path@) && e == ArchiveError::MalformedTimestamp,
        },
{
    let path = chars_of(file_path);
    match find_file_name(&path) {
        Some((b, e)) => {
            let mut name: Vec<char> = Vec::new();
            append_range(&mut name, &path, b, e);
            match parse_name(&name) {
                Some(t) => Ok(t),
                None => Err(ArchiveError::MalformedTimestamp),
            }
        },
        None => Err(ArchiveError::MalformedTimestamp),
    }
}

/// The headings of the post at `path`: the long date, the date, the time
/// of the 12-hour clock, the time of the 24-hour clock, and the calendar
/// path.
pub fn make_headings_from_filepath(path: String) -> (outcome: Result<
    (String, String, String, String, String),
    ArchiveError,
>)
    ensures
        match outcome {
            Ok(h) => {
                &&& leads_to_post(path@)
                &&& h.0@ == title_text(moment_of_path(path@))
                &&& h.1@ == date_text(moment_of_path(path@))
                &&& h.2@ == time_text(moment_of_path(path@))
                &&& h.3@ == time_text_24h(moment_of_path(path@))
                &&& h.4@ == calendar_path_text(moment_of_path(path@))
            },
            Err(e) => !leads_to_post(path@) && e == ArchiveError::MalformedTimestamp,
        },
{
    match get_datetime_from_string(path.as_str()) {
        Ok(t) => Ok(
            (
                t.title_heading(),
                t.date_string(),
                t.time_string(),
                t.time_string_24h(),
                t.calendar_path(),
            ),
        ),
        Err(e) => Err(e),
    }
}

/// Whether the marker occurs anywhere in `name`.
pub open spec fn has_marker(name: Seq<char>) -> bool {
    exists|at: int| occurs_at(name, at, marker())
}

/// Where the last marker is found: at an occurrence of the marker, with
/// no occurrence behind it; and nowhere exactly if there is no occurrence.
pub proof fn lemma_last_marker(name: Seq<char>, n: int)
    requires
        0 <= n <= name.len(),
    ensures
        -1 <= last_marker(name, n) < n,
        last_marker(name, n) >= 0 ==> occurs_at(name, last_marker(name, n), marker()),
        forall|at: int| last_marker(name, n) < at < n ==> !occurs_at(name, at, marker()),
    decreases n,
{
    if n > 0 && !occurs_at(name, n - 1, marker()) {
        lemma_last_marker(name, n - 1);
    }
}

/// Extraction is a function of the file name: two extractions from the
/// name of a post give keys that read the same, and so does an
/// extraction from the name that such a key holds as its source.
pub proof fn law_extraction_is_deterministic(
    name: Seq<char>,
    first: Result<PostKey, ArchiveError>,
    second: Result<PostKey, ArchiveError>,
    third: Result<PostKey, ArchiveError>,
)
    requires
        names_post(name),
        extraction_of(name, first),
        extraction_of(name, second),
        first matches Ok(key) && extraction_of(key@.source_path, third),
    ensures
        first matches Ok(a) && second matches Ok(b) && third matches Ok(c) && a@ == b@ && a@
            == c@,
{
}

/// A file name without the marker, or whose text before the last marker
/// is no timestamp, gives `MalformedTimestamp` and no key.
pub proof fn law_malformed_names_fail(name: Seq<char>, outcome: Result<PostKey, ArchiveError>)
    requires
        extraction_of(name, outcome),
        !has_marker(name) || stamp_of(name) is None || !is_timestamp(stamp_of(name)->0),
    ensures
        outcome matches Err(e) && e == ArchiveError::MalformedTimestamp,
{
    if !has_marker(name) {
        lemma_last_marker(name, name.len() as int);
        let at = last_marker(name, name.len() as int);
        if at >= 0 {
            assert(occurs_at(name, at, marker()));
        }
    }
}

/// The name of a post begins with its timestamp and the marker, and
/// holds no marker behind that one.
pub proof fn law_post_names_begin_with_timestamp(name: Seq<char>)
    requires
        names_post(name),
    ensures
        name.len() >= 23,
        is_timestamp(name.take(19)),
        stamp_of(name) == Some(name.take(19)),
        name.subrange(19, 23) == marker(),
        forall|at: int| at > 19 ==> !occurs_at(name, at, marker()),
{
    reveal_strlit("_UTC");
    lemma_last_marker(name, name.len() as int);
    let at = last_marker(name, name.len() as int);
    assert(name.take(at).len() == 19);
    assert forall|k: int| k > 19 implies !occurs_at(name, k, marker()) by {
        if occurs_at(name, k, marker()) {
            assert(k + 4 <= name.len());
        }
    }
}

/// The date, the calendar path and the time of the 24-hour clock are
/// read off the timestamp digit by digit.
pub proof fn law_fields_are_read_off(s: Seq<char>)
    requires
        is_timestamp(s),
    ensures
        date_text(timestamp_of(s)) == s.take(10),
        calendar_path_text(timestamp_of(s)) == s.subrange(0, 4) + seq!['/'] + s.subrange(5, 7)
            + seq!['/'] + s.subrange(8, 10),
        time_text_24h(timestamp_of(s)) == s.subrange(11, 13) + seq![':'] + s.subrange(14, 16)
            + seq![':'] + s.subrange(17, 19),
{
    lemma_two_digits_read_back(s, 0);
    lemma_two_digits_read_back(s, 2);
    lemma_two_digits_read_back(s, 5);
    lemma_two_digits_read_back(s, 8);
    lemma_two_digits_read_back(s, 11);
    lemma_two_digits_read_back(s, 14);
    lemma_two_digits_read_back(s, 17);
    let t = timestamp_of(s);
    assert(t.year == stamp_year(s));
    assert(t.year as int / 100 == two_digit_value(s, 0));
    assert(t.year as int % 100 == two_digit_value(s, 2));
    assert(four_digit_text(t.year as int) == s.subrange(0, 4));
    assert(two_digit_text(t.month as int) == s.subrange(5, 7));
    assert(two_digit_text(t.day as int) == s.subrange(8, 10));
    assert(two_digit_text(t.hour as int) == s.subrange(11, 13));
    assert(two_digit_text(t.minute as int) == s.subrange(14, 16));
    assert(two_digit_text(t.second as int) == s.subrange(17, 19));
}

/// Two digits written out again are the two digits that were read.
proof fn lemma_two_digits_read_back(s: Seq<char>, at: int)
    requires
        0 <= at,
        at + 2 <= s.len(),
        two_digits(s, at),
    ensures
        0 <= two_digit_value(s, at) < 100,
        two_digit_text(two_digit_value(s, at)) == s.subrange(at, at + 2),
{
    let a = digit_value(s[at]);
    let b = digit_value(s[at + 1]);
    assert(0 <= a <= 9 && 0 <= b <= 9);
    assert((10 * a + b) / 10 == a && (10 * a + b) % 10 == b);
    assert(digit_char(a) == s[at]);
    assert(digit_char(b) == s[at + 1]);
}

} // verus!
