//! The date calculator: weekdays, days of the calendar, and the next
//! occurrence of a weekday.

use chrono::Datelike;
use vstd::prelude::*;

verus! {

/// A day of the week. Monday is day 0 of the week, Sunday day 6.
#[derive(Clone, Copy, Debug, PartialEq, Eq, Structural)]
pub enum Weekday {
    Mon,
    Tue,
    Wed,
    Thu,
    Fri,
    Sat,
    Sun,
}

/// The weekday that is day `index` of the week, counted on from Monday
/// through any number of weeks.
pub open spec fn weekday_at(index: int) -> Weekday {
    let day = index % 7;
    if day == 0 {
        Weekday::Mon
    } else if day == 1 {
        Weekday::Tue
    } else if day == 2 {
        Weekday::Wed
    } else if day == 3 {
        Weekday::Thu
    } else if day == 4 {
        Weekday::Fri
    } else if day == 5 {
        Weekday::Sat
    } else {
        Weekday::Sun
    }
}

impl Weekday {
    /// The number of days from Monday to this weekday.
    pub open spec fn index(self) -> int {
        match self {
            Weekday::Mon => 0,
            Weekday::Tue => 1,
            Weekday::Wed => 2,
            Weekday::Thu => 3,
            Weekday::Fri => 4,
            Weekday::Sat => 5,
            Weekday::Sun => 6,
        }
    }

    /// The three letters that stand for this weekday.
    pub open spec fn short_name(self) -> Seq<char> {
        match self {
            Weekday::Mon => "mon"@,
            Weekday::Tue => "tue"@,
            Weekday::Wed => "wed"@,
            Weekday::Thu => "thu"@,
            Weekday::Fri => "fri"@,
            Weekday::Sat => "sat"@,
            Weekday::Sun => "sun"@,
        }
    }

    /// The full name of this weekday.
    pub open spec fn long_name(self) -> Seq<char> {
        match self {
            Weekday::Mon => "monday"@,
            Weekday::Tue => "tuesday"@,
            Weekday::Wed => "wednesday"@,
            Weekday::Thu => "thursday"@,
            Weekday::Fri => "friday"@,
            Weekday::Sat => "saturday"@,
            Weekday::Sun => "sunday"@,
        }
    }

    /// The number of days from Monday to this weekday.
    pub fn num_days_from_monday(self) -> (n: u32)
        ensures
            n == self.index(),
    {
        match self {
            Weekday::Mon => 0,
            Weekday::Tue => 1,
            Weekday::Wed => 2,
            Weekday::Thu => 3,
            Weekday::Fri => 4,
            Weekday::Sat => 5,
            Weekday::Sun => 6,
        }
    }

    /// The weekday that lies `days` days after Monday.
    pub fn from_days_after_monday(days: u32) -> (day: Weekday)
        ensures
            day == weekday_at(days as int),
    {
        let index: u32 = days % 7;
        if index == 0 {
            Weekday::Mon
        } else if index == 1 {
            Weekday::Tue
        } else if index == 2 {
            Weekday::Wed
        } else if index == 3 {
            Weekday::Thu
        } else if index == 4 {
            Weekday::Fri
        } else if index == 5 {
            Weekday::Sat
        } else {
            Weekday::Sun
        }
    }
}

/// Whether `c` is the small letter `letter` or its capital.
pub open spec fn is_letter(c: char, letter: char) -> bool {
    c == letter || c as int + 32 == letter as int
}

/// Whether `text` spells `name`, a word in small letters, in small or
/// capital letters.
pub open spec fn spells(text: Seq<char>, name: Seq<char>) -> bool {
    &&& text.len() == name.len()
    &&& forall|i: int| 0 <= i < text.len() ==> is_letter(#[trigger] text[i], name[i])
}

/// Whether `text` is a name of `day`: its three letters or its full name,
/// in small or capital letters.
pub open spec fn names_day(text: Seq<char>, day: Weekday) -> bool {
    spells(text, day.short_name()) || spells(text, day.long_name())
}

/// The weekday that `text` names, if it names one.
pub open spec fn weekday_named(text: Seq<char>) -> Option<Weekday> {
    if names_day(text, Weekday::Mon) {
        Some(Weekday::Mon)
    } else if names_day(text, Weekday::Tue) {
        Some(Weekday::Tue)
    } else if names_day(text, Weekday::Wed) {
        Some(Weekday::Wed)
    } else if names_day(text, Weekday::Thu) {
        Some(Weekday::Thu)
    } else if names_day(text, Weekday::Fri) {
        Some(Weekday::Fri)
    } else if names_day(text, Weekday::Sat) {
        Some(Weekday::Sat)
    } else if names_day(text, Weekday::Sun) {
        Some(Weekday::Sun)
    } else {
        None
    }
}

/// `str::parse` for `chrono::Weekday`: a text is a weekday where it is the
/// three-letter form or the full name of one, whatever the case of its
/// letters; no other text is. The weekday comes back as its number of days
/// from Monday.
#[verifier::external_body]
fn weekday_number(text: &str) -> (r: Option<u32>)
    ensures
        r is Some <==> weekday_named(text@) is Some,
        r matches Some(n) ==> n == weekday_named(text@).unwrap().index(),
{
    text.parse::<chrono::Weekday>().ok().map(|day| day.num_days_from_monday())
}

/// The weekday that `text` names: `Mon` or `Monday`, in any case of the
/// letters, and so on for the other days.
pub fn parse_weekday(text: &str) -> (r: Option<Weekday>)
    ensures
        r == weekday_named(text@),
{
    match weekday_number(text) {
        Some(n) => Some(Weekday::from_days_after_monday(n)),
        None => None,
    }
}

/// A day of the calendar: its number, and its weekday. A date that the
/// library makes is well formed: its weekday is the one that falls on the
/// day with its number.
#[derive(Clone, Copy, Debug, PartialEq, Eq, Structural)]
pub struct Date {
    /// The number of the day in the proleptic Gregorian calendar, where
    /// 1 January of the year 1 is day 1.
    pub day_number: i32,
    /// The weekday of the day.
    pub weekday: Weekday,
}

/// The mathematical value of a [`Date`]: a day of an unbounded calendar.
pub ghost struct Day {
    pub number: int,
    pub weekday: Weekday,
}

impl View for Date {
    type V = Day;

    open spec fn view(&self) -> Day {
        Day { number: self.day_number as int, weekday: self.weekday }
    }
}

/// The weekday of the day with the number `number`: day 1, the first of
/// January of the year 1, is a Monday.
pub open spec fn weekday_of(number: int) -> Weekday {
    weekday_at(number - 1)
}

impl Day {
    /// Whether the day is well formed: its weekday is the weekday of its
    /// number.
    pub open spec fn wf(self) -> bool {
        self.weekday == weekday_of(self.number)
    }
}

/// The day that lies `days` days after `day`.
pub open spec fn later(day: Day, days: int) -> Day {
    Day { number: day.number + days, weekday: weekday_at(day.weekday.index() + days) }
}

/// The number of days from a day that is a `today` to the next day that is
/// a `target`; none where the two are the same.
pub open spec fn days_ahead(target: Weekday, today: Weekday) -> int {
    (target.index() - today.index() + 7) % 7
}

/// The next day from `today` on, `today` included, that is a `target`.
pub open spec fn next_day(target: Weekday, today: Day) -> Day {
    later(today, days_ahead(target, today.weekday))
}

/// The text of the day with the number `day_number` in the form
/// `yyyy-mm-dd`, where the calendar has such a day.
pub uninterp spec fn iso_text(day_number: int) -> Option<Seq<char>>;

/// `Local::now`: the day on the local clock, which `date_naive` takes from
/// it, as the number that `num_days_from_ce` gives for the day. Nothing is
/// known of a clock's answer.
#[verifier::external_body]
fn local_today() -> (day_number: i32) {
    chrono::Local::now().date_naive().num_days_from_ce()
}

/// `NaiveDate::from_num_days_from_ce_opt` and the `to_string` of the date
/// it gives: the text of the day with that number, or nothing where the
/// number is out of the calendar's range.
#[verifier::external_body]
fn iso_date(day_number: i32) -> (r: Option<String>)
    ensures
        r.deep_view() == iso_text(day_number as int),
{
    chrono::NaiveDate::from_num_days_from_ce_opt(day_number).map(|date| date.to_string())
}

impl Date {
    /// Whether the date is well formed: its weekday is the weekday of its
    /// day number.
    pub open spec fn wf(&self) -> bool {
        self@.wf()
    }

    /// The day with the number `day_number`, with the weekday that falls on
    /// it.
    pub fn from_day_number(day_number: i32) -> (r: Date)
        ensures
            r.day_number == day_number,
            r.wf(),
    {
        // 2_147_483_653 is a number of whole weeks, and lifts every day
        // number above zero
        let lifted: u64 = (day_number as i64 - 1 + 2_147_483_653) as u64;
        let after_monday: u32 = (lifted % 7) as u32;
        Date { day_number, weekday: Weekday::from_days_after_monday(after_monday) }
    }

    /// The day on the local clock, with the weekday that falls on it.
    pub fn today() -> (r: Date)
        ensures
            r.wf(),
    {
        Date::from_day_number(local_today())
    }

    /// The next day from `self` on, `self` included, that is a `target`;
    /// nothing where its number exceeds the numbers that a `Date` holds.
    pub fn next(self, target: Weekday) -> (r: Option<Date>)
        ensures
            r is Some <==> next_day(target, self@).number <= i32::MAX,
            r matches Some(date) ==> date@ == next_day(target, self@),
            r matches Some(date) ==> (self.wf() ==> date.wf()),
    {
        proof {
            if self.wf() {
                lemma_later_keeps_weekday(self@, days_ahead(target, self.weekday));
            }
        }
        let ahead: u32 = (target.num_days_from_monday() + 7 - self.weekday.num_days_from_monday())
            % 7;
        match self.day_number.checked_add(ahead as i32) {
            Some(day_number) => Some(Date { day_number, weekday: target }),
            None => None,
        }
    }

    /// The text of the day in the form `yyyy-mm-dd`, where the calendar has
    /// the day.
    pub fn iso(self) -> (r: Option<String>)
        ensures
            r.deep_view() == iso_text(self@.number),
    {
        iso_date(self.day_number)
    }
}

/// The text, in the form `yyyy-mm-dd`, of the next day from `today` on that
/// is a `target`, where the calendar has that day.
pub open spec fn next_date_text(target: Weekday, today: Day) -> Option<Seq<char>> {
    if next_day(target, today).number <= i32::MAX {
        iso_text(next_day(target, today).number)
    } else {
        None
    }
}

/// The date of the next `day` from `today` on, `today` included, in the form
/// `yyyy-mm-dd`; nothing where that day is out of the calendar's range.
pub fn next_date_from(day: Weekday, today: Date) -> (r: Option<String>)
    ensures
        r.deep_view() == next_date_text(day, today@),
{
    match today.next(day) {
        Some(date) => date.iso(),
        None => None,
    }
}

/// The date of the next `day` from today on, today included, in the form
/// `yyyy-mm-dd`; nothing where that day is out of the calendar's range.
/// Today is the day on the local clock, a day with the weekday that falls
/// on it.
pub fn get_next_date(day: Weekday) -> (r: Option<String>)
    ensures
        exists|today: Day| today.wf() && r.deep_view() == #[trigger] next_date_text(day, today),
{
    next_date_from(day, Date::today())
}

/// The weekday moves on with the days: the day that lies any number of days
/// after a well-formed day is well formed.
pub proof fn lemma_later_keeps_weekday(day: Day, days: int)
    requires
        day.wf(),
    ensures
        later(day, days).wf(),
{
    let monday = day.number - 1;
    assert(day.weekday.index() == monday % 7);
    assert((monday % 7 + days) % 7 == (monday + days) % 7);
}

/// The next occurrence of a weekday from a well-formed day on is a
/// well-formed day.
pub proof fn lemma_next_day_is_well_formed(target: Weekday, today: Day)
    requires
        today.wf(),
    ensures
        next_day(target, today).wf(),
{
    lemma_later_keeps_weekday(today, days_ahead(target, today.weekday));
}

/// The next occurrence is a day of the wanted weekday, at most six days on,
/// and no day before it from `today` on is one.
pub proof fn lemma_next_day_is_nearest(target: Weekday, today: Day)
    ensures
        next_day(target, today).weekday == target,
        0 <= next_day(target, today).number - today.number <= 6,
        forall|days: int|
            0 <= days < days_ahead(target, today.weekday) ==> #[trigger] later(
                today,
                days,
            ).weekday != target,
{
}

/// Today counts: on a day of the wanted weekday the next occurrence is that
/// day itself.
pub proof fn lemma_today_is_included(target: Weekday, today: Day)
    requires
        today.weekday == target,
    ensures
        days_ahead(target, today.weekday) == 0,
        next_day(target, today) == today,
{
}

/// From the day that was found, the next occurrence is that day again.
pub proof fn lemma_next_day_again(target: Weekday, today: Day)
    ensures
        next_day(target, next_day(target, today)) == next_day(target, today),
{
}

/// The occurrences lie a week apart: from the day after the one that was
/// found, the next occurrence is seven days after it.
pub proof fn lemma_next_day_after(target: Weekday, today: Day)
    ensures
        next_day(target, later(next_day(target, today), 1)) == later(next_day(target, today), 7),
{
    lemma_next_day_is_nearest(target, today);
}

/// A week after `today`, the next occurrence is a week after that of
/// `today`.
pub proof fn lemma_next_day_weekly(target: Weekday, today: Day)
    ensures
        next_day(target, later(today, 7)) == later(next_day(target, today), 7),
{
    lemma_next_day_is_nearest(target, today);
    lemma_next_day_is_nearest(target, later(today, 7));
}

} // verus!
