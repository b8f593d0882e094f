use chrono::Datelike;
use chrono::NaiveDate;
use eventmail::calendar::get_next_date;
use eventmail::calendar::next_date_from;
use eventmail::calendar::parse_weekday;
use eventmail::calendar::Date;
use eventmail::calendar::Weekday;

const DAYS: [Weekday; 7] = [
    Weekday::Mon,
    Weekday::Tue,
    Weekday::Wed,
    Weekday::Thu,
    Weekday::Fri,
    Weekday::Sat,
    Weekday::Sun,
];

fn date(year: i32, month: u32, day: u32) -> Date {
    let d = NaiveDate::from_ymd_opt(year, month, day).unwrap();
    Date {
        day_number: d.num_days_from_ce(),
        weekday: Weekday::from_days_after_monday(d.weekday().num_days_from_monday()),
    }
}

#[test]
fn the_weekday_of_a_day_number_is_that_of_the_calendar() {
    assert_eq!(Date::from_day_number(1), Date { day_number: 1, weekday: Weekday::Mon });
    assert_eq!(Date::from_day_number(0), Date { day_number: 0, weekday: Weekday::Sun });
    assert_eq!(Date::from_day_number(-6), Date { day_number: -6, weekday: Weekday::Mon });
    assert_eq!(Date::from_day_number(739_040), date(2024, 6, 3));
    assert_eq!(Date::from_day_number(739_044).weekday, Weekday::Fri);
    assert_eq!(Date::from_day_number(i32::MAX).day_number, i32::MAX);
    assert_eq!(Date::from_day_number(i32::MIN).day_number, i32::MIN);
    let first = NaiveDate::MIN.num_days_from_ce();
    let last = NaiveDate::MAX.num_days_from_ce();
    let spans = [(first, first + 1500), (-1500, 1500), (738_000, 741_000), (last - 1500, last)];
    for (from, to) in spans {
        for number in from..=to {
            let d = NaiveDate::from_num_days_from_ce_opt(number).unwrap();
            let found = Date::from_day_number(number);
            assert_eq!(found.day_number, number);
            assert_eq!(found.weekday.num_days_from_monday(), d.weekday().num_days_from_monday());
        }
    }
}

#[test]
fn weekday_numbers_start_at_monday() {
    for (n, day) in DAYS.iter().enumerate() {
        assert_eq!(day.num_days_from_monday(), n as u32);
        assert_eq!(Weekday::from_days_after_monday(n as u32), *day);
        assert_eq!(Weekday::from_days_after_monday(n as u32 + 7), *day);
    }
}

#[test]
fn weekday_names_parse_in_short_and_long_form() {
    let names = [
        ("mon", "monday"),
        ("tue", "tuesday"),
        ("wed", "wednesday"),
        ("thu", "thursday"),
        ("fri", "friday"),
        ("sat", "saturday"),
        ("sun", "sunday"),
    ];
    for (day, (short, long)) in DAYS.iter().zip(names) {
        assert_eq!(parse_weekday(short), Some(*day));
        assert_eq!(parse_weekday(long), Some(*day));
        assert_eq!(parse_weekday(&short.to_uppercase()), Some(*day));
        assert_eq!(parse_weekday(&long.to_uppercase()), Some(*day));
    }
    assert_eq!(parse_weekday("Friday"), Some(Weekday::Fri));
    assert_eq!(parse_weekday("mON"), Some(Weekday::Mon));
    assert_eq!(parse_weekday("wEdNeSdAy"), Some(Weekday::Wed));
}

#[test]
fn other_texts_are_no_weekday() {
    for text in ["", "m", "mo", "thurs", "tues", "monda", "mondays", " mon", "mon ", "m0n", "frid", "someday", "day", "freitag", "mön"] {
        assert_eq!(parse_weekday(text), None, "{text}");
    }
}

#[test]
fn next_friday_from_a_monday() {
    let today = date(2024, 6, 3);
    assert_eq!(today.weekday, Weekday::Mon);
    assert_eq!(today.day_number, 739_040);
    assert_eq!(next_date_from(Weekday::Fri, today), Some("2024-06-07".to_string()));
    assert_eq!(today.next(Weekday::Fri), Some(Date { day_number: 739_044, weekday: Weekday::Fri }));
}

#[test]
fn today_counts_as_the_next_occurrence() {
    let wednesday = date(2024, 6, 5);
    assert_eq!(wednesday.weekday, Weekday::Wed);
    assert_eq!(wednesday.next(Weekday::Wed), Some(wednesday));
    assert_eq!(next_date_from(Weekday::Wed, wednesday), Some("2024-06-05".to_string()));
}

#[test]
fn an_earlier_weekday_is_found_in_the_next_week() {
    let friday = date(2024, 6, 7);
    assert_eq!(next_date_from(Weekday::Mon, friday), Some("2024-06-10".to_string()));
    assert_eq!(next_date_from(Weekday::Thu, friday), Some("2024-06-13".to_string()));
    assert_eq!(next_date_from(Weekday::Sat, friday), Some("2024-06-08".to_string()));
}

#[test]
fn next_occurrence_for_every_pair_of_weekdays() {
    let monday = date(2024, 6, 3);
    for from in 0..7u32 {
        let today = Date {
            day_number: monday.day_number + from as i32,
            weekday: Weekday::from_days_after_monday(from),
        };
        for to in 0..7u32 {
            let target = Weekday::from_days_after_monday(to);
            let ahead = (to + 7 - from) % 7;
            let found = today.next(target).unwrap();
            assert_eq!(found.day_number, today.day_number + ahead as i32);
            assert_eq!(found.weekday, target);
            let d = NaiveDate::from_num_days_from_ce_opt(found.day_number).unwrap();
            assert_eq!(d.weekday().num_days_from_monday(), to);
            assert_eq!(found.iso(), Some(d.to_string()));
        }
    }
}

#[test]
fn the_occurrence_found_is_found_again_and_the_one_after_is_a_week_later() {
    let today = date(2024, 6, 3);
    let found = today.next(Weekday::Fri).unwrap();
    assert_eq!(found.next(Weekday::Fri), Some(found));
    let day_after = date(2024, 6, 8);
    assert_eq!(day_after.day_number, found.day_number + 1);
    assert_eq!(next_date_from(Weekday::Fri, day_after), Some("2024-06-14".to_string()));
    let week_later = date(2024, 6, 10);
    assert_eq!(next_date_from(Weekday::Fri, week_later), Some("2024-06-14".to_string()));
}

#[test]
fn next_date_crosses_months_and_leap_days() {
    assert_eq!(next_date_from(Weekday::Fri, date(2024, 2, 26)), Some("2024-03-01".to_string()));
    assert_eq!(next_date_from(Weekday::Thu, date(2024, 2, 26)), Some("2024-02-29".to_string()));
    assert_eq!(next_date_from(Weekday::Wed, date(2023, 2, 27)), Some("2023-03-01".to_string()));
    assert_eq!(next_date_from(Weekday::Mon, date(2024, 12, 31)), Some("2025-01-06".to_string()));
}

#[test]
fn iso_text_of_days() {
    assert_eq!(date(2015, 9, 5).iso(), Some("2015-09-05".to_string()));
    assert_eq!(Date { day_number: 1, weekday: Weekday::Mon }.iso(), Some("0001-01-01".to_string()));
    assert_eq!(Date { day_number: 0, weekday: Weekday::Sun }.iso(), Some("0000-12-31".to_string()));
}

#[test]
fn days_out_of_the_calendar_have_no_text() {
    let far = Date { day_number: i32::MAX, weekday: Weekday::Mon };
    assert_eq!(far.iso(), None);
    assert_eq!(far.next(Weekday::Mon), Some(far));
    assert_eq!(far.next(Weekday::Tue), None);
    assert_eq!(next_date_from(Weekday::Tue, far), None);
    assert_eq!(next_date_from(Weekday::Mon, far), None);
    let last = NaiveDate::MAX;
    let last_day = Date {
        day_number: last.num_days_from_ce(),
        weekday: Weekday::from_days_after_monday(last.weekday().num_days_from_monday()),
    };
    assert_eq!(next_date_from(last_day.weekday, last_day), Some(last.to_string()));
    let after = Weekday::from_days_after_monday(last.weekday().num_days_from_monday() + 1);
    assert_eq!(next_date_from(after, last_day), None);
}

#[test]
fn today_agrees_with_the_clock() {
    let before = chrono::Local::now().date_naive();
    let today = Date::today();
    let after = chrono::Local::now().date_naive();
    assert!(before.num_days_from_ce() <= today.day_number);
    assert!(today.day_number <= after.num_days_from_ce());
    let d = NaiveDate::from_num_days_from_ce_opt(today.day_number).unwrap();
    assert_eq!(today.weekday.num_days_from_monday(), d.weekday().num_days_from_monday());
    assert_eq!(today, Date::from_day_number(today.day_number));
}

#[test]
fn get_next_date_is_within_a_week_from_today() {
    let before = chrono::Local::now().date_naive();
    let text = get_next_date(Weekday::Fri).unwrap();
    let found = NaiveDate::parse_from_str(&text, "%Y-%m-%d").unwrap();
    assert_eq!(found.weekday(), chrono::Weekday::Fri);
    let ahead = found.num_days_from_ce() - before.num_days_from_ce();
    assert!((0..=7).contains(&ahead));
}

#[test]
fn weekday_of_a_day_number_follows_the_week() {
    // the weekday that the calendar gives moves on by one with each day
    let start = NaiveDate::from_ymd_opt(2023, 12, 25).unwrap();
    assert_eq!(start.weekday(), chrono::Weekday::Mon);
    for offset in 0..800 {
        let d = NaiveDate::from_num_days_from_ce_opt(start.num_days_from_ce() + offset).unwrap();
        assert_eq!(d.weekday().num_days_from_monday(), (offset % 7) as u32);
    }
}
