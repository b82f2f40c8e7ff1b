use chrono::{NaiveDate, NaiveDateTime};
use post_archive::error::ArchiveError;
use post_archive::timestamp::{
    extract_datetime_from_name, get_datetime_from_string, make_headings_from_filepath, Timestamp,
};

#[test]
fn extracts_the_key_of_a_post() {
    let key = extract_datetime_from_name("2023-05-14_18-42-09_UTC.txt").unwrap();
    assert_eq!(key.source_path, "2023-05-14_18-42-09_UTC.txt");
    assert_eq!(key.date_string, "2023-05-14");
    assert_eq!(key.calendar_path, "2023/05/14");
    assert_eq!(key.time_string, "06:42 PM");
    assert_eq!(key.time_string_24h, "18:42:09");
    assert_eq!(key.title_heading, "Sunday, May 14, 2023");
}

#[test]
fn extraction_gives_the_same_key_again() {
    let first = extract_datetime_from_name("2021-12-31_23-59-59_UTC_3.jpg").unwrap();
    let second = extract_datetime_from_name("2021-12-31_23-59-59_UTC_3.jpg").unwrap();
    let third = extract_datetime_from_name(&first.source_path).unwrap();
    for other in [&second, &third] {
        assert_eq!(first.source_path, other.source_path);
        assert_eq!(first.calendar_path, other.calendar_path);
        assert_eq!(first.title_heading, other.title_heading);
        assert_eq!(first.date_string, other.date_string);
        assert_eq!(first.time_string, other.time_string);
        assert_eq!(first.time_string_24h, other.time_string_24h);
    }
    let copy = first.duplicate();
    assert_eq!(copy.source_path, first.source_path);
    assert_eq!(copy.title_heading, "Friday, December 31, 2021");
}

#[test]
fn a_name_without_marker_is_malformed() {
    let outcome = extract_datetime_from_name("2023-05-14_18-42-09.txt");
    assert_eq!(outcome.err(), Some(ArchiveError::MalformedTimestamp));
    assert_eq!(extract_datetime_from_name("").err(), Some(ArchiveError::MalformedTimestamp));
    assert_eq!(extract_datetime_from_name("_UTC").err(), Some(ArchiveError::MalformedTimestamp));
}

#[test]
fn a_date_that_does_not_exist_is_malformed() {
    for name in [
        "2023-02-29_10-00-00_UTC.txt",
        "2023-04-31_10-00-00_UTC.txt",
        "2023-13-01_10-00-00_UTC.txt",
        "2023-00-10_10-00-00_UTC.txt",
        "2023-01-00_10-00-00_UTC.txt",
        "1900-02-29_10-00-00_UTC.txt",
        "2023-05-14_24-00-00_UTC.txt",
        "2023-05-14_23-60-00_UTC.txt",
        "2023-05-14_23-59-61_UTC.txt",
    ] {
        assert_eq!(
            extract_datetime_from_name(name).err(),
            Some(ArchiveError::MalformedTimestamp),
            "{}",
            name
        );
    }
    assert!(extract_datetime_from_name("2000-02-29_10-00-00_UTC.txt").is_ok());
    assert!(extract_datetime_from_name("2024-02-29_10-00-00_UTC.txt").is_ok());
}

#[test]
fn a_leap_second_is_read() {
    let key = extract_datetime_from_name("2016-12-31_23-59-60_UTC.txt").unwrap();
    assert_eq!(key.time_string_24h, "23:59:60");
    assert_eq!(key.time_string, "11:59 PM");
}

#[test]
fn the_layout_is_strict() {
    for name in [
        "2023-5-14_18-42-09_UTC.txt",
        "23-05-14_18-42-09_UTC.txt",
        " 2023-05-14_18-42-09_UTC.txt",
        "x2023-05-14_18-42-09_UTC.txt",
        "2023-05-14 18-42-09_UTC.txt",
        "2023-05-14_18:42:09_UTC.txt",
        "2023-05-14_18-42-09_utc.txt",
        "2023-05-14_18-42-09UTC.txt",
        "+023-05-14_18-42-09_UTC.txt",
        "2023-05-14_18-42-0a_UTC.txt",
        "2023-05-14_18-42-09_UTC_UTC.txt",
        "2023-05-14_18-42-09_UTC.txt_UTC",
    ] {
        assert_eq!(
            extract_datetime_from_name(name).err(),
            Some(ArchiveError::MalformedTimestamp),
            "{}",
            name
        );
    }
    assert!(extract_datetime_from_name("2023-05-14_18-42-09_UTC").is_ok());
    assert!(extract_datetime_from_name("2023-05-14_18-42-09_UTC_UT.txt").is_ok());
    assert!(extract_datetime_from_name("0000-01-01_00-00-00_UTC.txt").is_ok());
}

#[test]
fn headings_of_a_path() {
    let h = make_headings_from_filepath(String::from("in/posts/2024-02-29_00-05-59_UTC.txt"))
        .unwrap();
    assert_eq!(h.0, "Thursday, February 29, 2024");
    assert_eq!(h.1, "2024-02-29");
    assert_eq!(h.2, "12:05 AM");
    assert_eq!(h.3, "00:05:59");
    assert_eq!(h.4, "2024/02/29");
    let g = make_headings_from_filepath(String::from("2023-05-04_18-42-09_UTC_1.jpg")).unwrap();
    assert_eq!(g.0, "Thursday, May  4, 2023");
    assert_eq!(g.2, "06:42 PM");
}

#[test]
fn headings_fail_on_a_path_to_no_post() {
    for path in ["", "in/posts/", "in/2024-02-29_00-05-59_UTC.txt/..", "in/readme.txt"] {
        assert_eq!(
            make_headings_from_filepath(String::from(path)).err(),
            Some(ArchiveError::MalformedTimestamp),
            "{}",
            path
        );
        assert_eq!(
            get_datetime_from_string(path).err(),
            Some(ArchiveError::MalformedTimestamp)
        );
    }
    assert!(make_headings_from_filepath(String::from("2024-02-29_00-05-59_UTC.txt/")).is_ok());
}

#[test]
fn the_timestamp_of_a_path_has_its_fields() {
    let t = get_datetime_from_string("a/b/1999-12-31_23-59-58_UTC.txt").unwrap();
    assert_eq!(
        t,
        Timestamp { year: 1999, month: 12, day: 31, hour: 23, minute: 59, second: 58, weekday: 4 }
    );
    assert_eq!(Timestamp::new(1999, 12, 31, 23, 59, 58), Some(t));
    assert_eq!(Timestamp::new(1999, 2, 29, 0, 0, 0), None);
    assert_eq!(Timestamp::new(10000, 1, 1, 0, 0, 0), None);
    assert_eq!(Timestamp::new(1999, 1, 1, 24, 0, 0), None);
}

fn check_against_chrono(date: NaiveDate, hour: u32, minute: u32, second: u32) {
    let moment: NaiveDateTime = date.and_hms_opt(hour, minute, second).unwrap();
    let name = format!("{}_UTC.txt", moment.format("%Y-%m-%d_%H-%M-%S"));
    let key = extract_datetime_from_name(&name).unwrap();
    assert_eq!(key.title_heading, moment.format("%A, %B %e, %Y").to_string());
    assert_eq!(key.date_string, moment.format("%Y-%m-%d").to_string());
    assert_eq!(key.calendar_path, moment.format("%Y/%m/%d").to_string());
    assert_eq!(key.time_string, moment.format("%I:%M %p").to_string());
    assert_eq!(key.time_string_24h, moment.format("%H:%M:%S").to_string());
    let h = make_headings_from_filepath(name).unwrap();
    assert_eq!(h.0, moment.format("%A, %B %e, %Y").to_string());
    assert_eq!(h.1, moment.format("%Y-%m-%d").to_string());
    assert_eq!(h.2, moment.format("%I:%M %p").to_string());
    assert_eq!(h.3, moment.format("%H:%M:%S").to_string());
    assert_eq!(h.4, moment.format("%Y/%m/%d").to_string());
}

#[test]
fn every_day_of_some_years_reads_as_chrono_writes_it() {
    for year in [1, 999, 1900, 2000, 2023, 2024, 9999] {
        let mut date = NaiveDate::from_ymd_opt(year, 1, 1).unwrap();
        let mut n: u32 = 0;
        loop {
            check_against_chrono(date, n % 24, (n * 7) % 60, (n * 13) % 60);
            n += 1;
            match date.succ_opt() {
                Some(next) if chrono::Datelike::year(&next) == year => date = next,
                _ => break,
            }
        }
        assert!(n == 365 || n == 366);
    }
}

#[test]
fn every_hour_reads_as_chrono_writes_it() {
    let date = NaiveDate::from_ymd_opt(2023, 5, 14).unwrap();
    for hour in 0..24 {
        check_against_chrono(date, hour, 0, 0);
        check_against_chrono(date, hour, 59, 59);
    }
}

#[test]
fn what_chrono_refuses_is_refused() {
    for year in [1900, 2000, 2023, 2024] {
        for month in 0..14u32 {
            for day in 0..33u32 {
                let name = format!("{:04}-{:02}-{:02}_12-00-00_UTC.txt", year, month, day);
                let ours = extract_datetime_from_name(&name).is_ok();
                let theirs =
                    NaiveDateTime::parse_from_str(&name[..19], "%Y-%m-%d_%H-%M-%S").is_ok();
                assert_eq!(ours, theirs, "{}", name);
            }
        }
    }
}

#[test]
fn the_headings_of_the_post_of_an_evening() {
    let h = make_headings_from_filepath(String::from("2023-05-14_18-42-09_UTC.txt")).unwrap();
    assert_eq!(h.0, "Sunday, May 14, 2023");
    assert_eq!(h.1, "2023-05-14");
    assert_eq!(h.2, "06:42 PM");
    assert_eq!(h.3, "18:42:09");
    assert_eq!(h.4, "2023/05/14");
}

fn leap(year: i64) -> bool {
    year % 4 == 0 && (year % 100 != 0 || year % 400 == 0)
}

fn weekday_by_count_of_days(year: i64, month: i64, day: i64) -> i64 {
    let before = [0, 31, 59, 90, 120, 151, 181, 212, 243, 273, 304, 334];
    let leap_years = if year <= 0 {
        0
    } else {
        (year - 1) / 4 - (year - 1) / 100 + (year - 1) / 400 + 1
    };
    let in_year = before[(month - 1) as usize] + if month > 2 && leap(year) { 1 } else { 0 };
    (365 * year + leap_years + in_year + day - 1 + 5) % 7
}

#[test]
fn every_day_falls_on_the_weekday_that_the_count_of_days_gives() {
    let mut days: u32 = 0;
    for year in 0..10000u16 {
        for month in 1..13u8 {
            for day in 1..32u8 {
                if let Some(t) = Timestamp::new(year, month, day, 0, 0, 0) {
                    let counted = weekday_by_count_of_days(year as i64, month as i64, day as i64);
                    assert_eq!(t.weekday as i64, counted, "{}-{}-{}", year, month, day);
                    days += 1;
                }
            }
        }
    }
    assert_eq!(days, 3652425);
    assert_eq!(Timestamp::new(0, 1, 1, 0, 0, 0).unwrap().weekday, 5);
    assert_eq!(Timestamp::new(2023, 5, 14, 0, 0, 0).unwrap().weekday, 6);
}
