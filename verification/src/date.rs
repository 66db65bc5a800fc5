//! Calendar dates as an arXiv stamp writes them: the day without padding, the
//! English abbreviation of the month, the year in four digits.

use vstd::prelude::*;
use vstd::string::*;
use crate::text::{
    chars_of, decimal_string, decimal_text, digit_of, digit_value, find_from, first_index,
    is_ascii_digit, is_digit, lemma_decimal_text_value, lemma_index_from, same_text,
    two_digit_string, two_digits,
};

verus! {

/// `year` is a leap year of the Gregorian calendar.
pub open spec fn leap_year(year: int) -> bool {
    year % 4 == 0 && (year % 100 != 0 || year % 400 == 0)
}

/// The number of days of `month` in `year`.
pub open spec fn days_in_month(year: int, month: int) -> int {
    if month == 2 {
        if leap_year(year) {
            29
        } else {
            28
        }
    } else if month == 4 || month == 6 || month == 9 || month == 11 {
        30
    } else {
        31
    }
}

/// The three numbers are a date of the Gregorian calendar in a year from -9999
/// to 9999.
pub open spec fn calendar_date(year: int, month: int, day: int) -> bool {
    &&& -9999 <= year <= 9999
    &&& 1 <= month <= 12
    &&& 1 <= day <= days_in_month(year, month)
}

/// Asks `jiff::civil::Date::new` whether the three numbers are a date. That
/// function fails exactly when the year lies outside -9999..=9999, the month
/// outside 1..=12, or the day outside 1 to the number of days of that month in
/// that year; nothing here proves it.
#[verifier::external_body]
fn is_calendar_date(year: i16, month: i8, day: i8) -> (r: bool)
    ensures
        r == calendar_date(year as int, month as int, day as int),
{
    jiff::civil::Date::new(year, month, day).is_ok()
}

/// The English abbreviation of the month with the number `month`.
pub open spec fn month_abbrev(month: int) -> Seq<char> {
    if month == 1 {
        "Jan"@
    } else if month == 2 {
        "Feb"@
    } else if month == 3 {
        "Mar"@
    } else if month == 4 {
        "Apr"@
    } else if month == 5 {
        "May"@
    } else if month == 6 {
        "Jun"@
    } else if month == 7 {
        "Jul"@
    } else if month == 8 {
        "Aug"@
    } else if month == 9 {
        "Sep"@
    } else if month == 10 {
        "Oct"@
    } else if month == 11 {
        "Nov"@
    } else {
        "Dec"@
    }
}

/// The number of the month that `s` abbreviates, if it is one of the twelve
/// abbreviations, written with a capital and two small letters.
pub open spec fn month_named(s: Seq<char>) -> Option<int> {
    if s == "Jan"@ {
        Some(1int)
    } else if s == "Feb"@ {
        Some(2int)
    } else if s == "Mar"@ {
        Some(3int)
    } else if s == "Apr"@ {
        Some(4int)
    } else if s == "May"@ {
        Some(5int)
    } else if s == "Jun"@ {
        Some(6int)
    } else if s == "Jul"@ {
        Some(7int)
    } else if s == "Aug"@ {
        Some(8int)
    } else if s == "Sep"@ {
        Some(9int)
    } else if s == "Oct"@ {
        Some(10int)
    } else if s == "Nov"@ {
        Some(11int)
    } else if s == "Dec"@ {
        Some(12int)
    } else {
        None
    }
}

/// The day that `s` writes: one or two digits, the first of them not a zero.
pub open spec fn day_value(s: Seq<char>) -> Option<int> {
    if s.len() == 1 && is_digit(s[0]) && s[0] != '0' {
        Some(digit_value(s[0]))
    } else if s.len() == 2 && is_digit(s[0]) && s[0] != '0' && is_digit(s[1]) {
        Some(10 * digit_value(s[0]) + digit_value(s[1]))
    } else {
        None
    }
}

/// The year that `s` writes: exactly four digits.
pub open spec fn year_value(s: Seq<char>) -> Option<int> {
    if s.len() == 4 && is_digit(s[0]) && is_digit(s[1]) && is_digit(s[2]) && is_digit(s[3]) {
        Some(
            1000 * digit_value(s[0]) + 100 * digit_value(s[1]) + 10 * digit_value(s[2])
                + digit_value(s[3]),
        )
    } else {
        None
    }
}

/// A date of the Gregorian calendar.
#[derive(Debug, Clone, Copy, PartialEq, Eq, PartialOrd, Ord, Hash)]
pub struct Date {
    year: i16,
    month: i8,
    day: i8,
}

/// What a `Date` holds.
pub struct DateView {
    pub year: int,
    pub month: int,
    pub day: int,
}

impl View for Date {
    type V = DateView;

    closed spec fn view(&self) -> DateView {
        DateView { year: self.year as int, month: self.month as int, day: self.day as int }
    }
}

impl DateView {
    /// The date exists in the calendar.
    pub open spec fn wf(self) -> bool {
        calendar_date(self.year, self.month, self.day)
    }

    /// The date of the three numbers, if they are one.
    pub open spec fn made(year: int, month: int, day: int) -> Option<DateView> {
        if calendar_date(year, month, day) {
            Some(DateView { year, month, day })
        } else {
            None
        }
    }

    /// The date that `s` writes as day, month and year with one space between
    /// them, such as `1 Jun 2007`, if it writes one that exists.
    pub open spec fn parsed(s: Seq<char>) -> Option<DateView> {
        let space = first_index(s, ' ');
        if s.len() != space + 9 || s[space + 4] != ' ' {
            None
        } else {
            match (
                day_value(s.subrange(0, space)),
                month_named(s.subrange(space + 1, space + 4)),
                year_value(s.subrange(space + 5, space + 9)),
            ) {
                (Some(day), Some(month), Some(year)) => Self::made(year, month, day),
                _ => None,
            }
        }
    }

    /// The text that the date is written with, for a year from 0 to 9999.
    pub open spec fn text(self) -> Seq<char> {
        decimal_text(self.day) + seq![' '] + month_abbrev(self.month) + seq![' '] + two_digits(
            self.year / 100,
        ) + two_digits(self.year % 100)
    }
}

/// The length and the characters of each of the twelve abbreviations.
pub proof fn lemma_month_names()
    ensures
        "Jan"@.len() == 3 && "Jan"@[0] == 'J' && "Jan"@[1] == 'a' && "Jan"@[2] == 'n',
        "Feb"@.len() == 3 && "Feb"@[0] == 'F' && "Feb"@[1] == 'e' && "Feb"@[2] == 'b',
        "Mar"@.len() == 3 && "Mar"@[0] == 'M' && "Mar"@[1] == 'a' && "Mar"@[2] == 'r',
        "Apr"@.len() == 3 && "Apr"@[0] == 'A' && "Apr"@[1] == 'p' && "Apr"@[2] == 'r',
        "May"@.len() == 3 && "May"@[0] == 'M' && "May"@[1] == 'a' && "May"@[2] == 'y',
        "Jun"@.len() == 3 && "Jun"@[0] == 'J' && "Jun"@[1] == 'u' && "Jun"@[2] == 'n',
        "Jul"@.len() == 3 && "Jul"@[0] == 'J' && "Jul"@[1] == 'u' && "Jul"@[2] == 'l',
        "Aug"@.len() == 3 && "Aug"@[0] == 'A' && "Aug"@[1] == 'u' && "Aug"@[2] == 'g',
        "Sep"@.len() == 3 && "Sep"@[0] == 'S' && "Sep"@[1] == 'e' && "Sep"@[2] == 'p',
        "Oct"@.len() == 3 && "Oct"@[0] == 'O' && "Oct"@[1] == 'c' && "Oct"@[2] == 't',
        "Nov"@.len() == 3 && "Nov"@[0] == 'N' && "Nov"@[1] == 'o' && "Nov"@[2] == 'v',
        "Dec"@.len() == 3 && "Dec"@[0] == 'D' && "Dec"@[1] == 'e' && "Dec"@[2] == 'c',
{
    reveal_strlit("Jan");
    reveal_strlit("Feb");
    reveal_strlit("Mar");
    reveal_strlit("Apr");
    reveal_strlit("May");
    reveal_strlit("Jun");
    reveal_strlit("Jul");
    reveal_strlit("Aug");
    reveal_strlit("Sep");
    reveal_strlit("Oct");
    reveal_strlit("Nov");
    reveal_strlit("Dec");
}

impl DateView {
    /// The text of a date with a year from 0 on is the day in one or two
    /// digits, a space, three letters, a space and four digits.
    pub proof fn lemma_text_shape(self)
        requires
            self.wf(),
            0 <= self.year,
        ensures
            self.text() == decimal_text(self.day) + seq![' '] + month_abbrev(self.month) + seq![
                ' ',
            ] + two_digits(self.year / 100) + two_digits(self.year % 100),
            first_index(self.text(), ' ') == decimal_text(self.day).len(),
            1 <= decimal_text(self.day).len() <= 2,
            month_abbrev(self.month).len() == 3,
            self.text().len() == decimal_text(self.day).len() + 9,
    {
        let day_text = decimal_text(self.day);
        lemma_decimal_text_value(self.day);
        lemma_month_names();
        let t = self.text();
        assert forall|j: int| 0 <= j < day_text.len() implies t[j] != ' ' by {
            assert(t[j] == day_text[j]);
            assert(is_digit(day_text[j]));
        }
        assert(t[day_text.len() as int] == ' ');
        lemma_index_from(t, ' ', 0, day_text.len() as int);
    }

    /// Reading the text that a date with a year from 0 on is written with
    /// gives the date back.
    pub proof fn lemma_parsed_text(self)
        requires
            self.wf(),
            0 <= self.year,
        ensures
            Self::parsed(self.text()) == Some(self),
    {
        let day_text = decimal_text(self.day);
        let month_text = month_abbrev(self.month);
        let year_text = two_digits(self.year / 100) + two_digits(self.year % 100);
        let t = self.text();
        let space = day_text.len() as int;
        self.lemma_text_shape();
        lemma_month_names();
        assert(t[space + 4] == ' ');
        assert(t.subrange(0, space) =~= day_text);
        assert(t.subrange(space + 1, space + 4) =~= month_text);
        assert(t.subrange(space + 5, space + 9) =~= year_text);
        assert(day_value(day_text) == Some(self.day));
        assert(month_named(month_text) == Some(self.month));
        assert(year_value(year_text) == Some(self.year));
    }
}

/// The date seen through its view, where there is one.
pub open spec fn date_view(r: Option<Date>) -> Option<DateView> {
    match r {
        Some(d) => Some(d@),
        None => None,
    }
}

impl Date {
    /// The date of the three numbers, if they are a date of the calendar.
    pub fn new(year: i16, month: i8, day: i8) -> (r: Option<Date>)
        ensures
            date_view(r) == DateView::made(year as int, month as int, day as int),
    {
        if is_calendar_date(year, month, day) {
            Some(Date { year, month, day })
        } else {
            None
        }
    }

    /// Tells whether the date exists in the calendar. A date that was made by
    /// `new` or read from a text always does.
    pub fn is_valid(&self) -> (r: bool)
        ensures
            r == self@.wf(),
    {
        is_calendar_date(self.year, self.month, self.day)
    }

    /// The year of the date.
    pub fn year(&self) -> (r: i16)
        ensures
            r == self@.year,
    {
        self.year
    }

    /// The month of the date, from 1 to 12.
    pub fn month(&self) -> (r: i8)
        ensures
            r == self@.month,
    {
        self.month
    }

    /// The day of the month, from 1.
    pub fn day(&self) -> (r: i8)
        ensures
            r == self@.day,
    {
        self.day
    }

    /// The text that the date is written with, such as `1 Jun 2007`.
    pub fn to_string(&self) -> (r: String)
        requires
            self@.wf(),
            0 <= self@.year,
        ensures
            r@ == self@.text(),
    {
        let mut out = decimal_string(self.day as u8);
        out.append(" ");
        out.append(month_name(self.month));
        out.append(" ");
        let century = two_digit_string((self.year / 100) as u8);
        out.append(century.as_str());
        let rest = two_digit_string((self.year % 100) as u8);
        out.append(rest.as_str());
        proof {
            reveal_strlit(" ");
            assert(" "@ =~= seq![' ']);
        }
        out
    }
}

/// The English abbreviation of the month with the number `month`.
pub fn month_name(month: i8) -> (r: &'static str)
    requires
        1 <= month <= 12,
    ensures
        r@ == month_abbrev(month as int),
{
    match month {
        1 => "Jan",
        2 => "Feb",
        3 => "Mar",
        4 => "Apr",
        5 => "May",
        6 => "Jun",
        7 => "Jul",
        8 => "Aug",
        9 => "Sep",
        10 => "Oct",
        11 => "Nov",
        _ => "Dec",
    }
}

/// The number of the month that `word` abbreviates.
pub fn month_number(word: &Vec<char>) -> (r: Option<i8>)
    ensures
        match r {
            Some(m) => month_named(word@) == Some(m as int),
            None => month_named(word@) is None,
        },
{
    if same_text(word, "Jan") {
        Some(1)
    } else if same_text(word, "Feb") {
        Some(2)
    } else if same_text(word, "Mar") {
        Some(3)
    } else if same_text(word, "Apr") {
        Some(4)
    } else if same_text(word, "May") {
        Some(5)
    } else if same_text(word, "Jun") {
        Some(6)
    } else if same_text(word, "Jul") {
        Some(7)
    } else if same_text(word, "Aug") {
        Some(8)
    } else if same_text(word, "Sep") {
        Some(9)
    } else if same_text(word, "Oct") {
        Some(10)
    } else if same_text(word, "Nov") {
        Some(11)
    } else if same_text(word, "Dec") {
        Some(12)
    } else {
        None
    }
}

/// Parses a date in the form of `1 Jan 2000`, where the day is a number without
/// zero padding, the month is the first three letters of its English name, and
/// the year is a number of four digits.
pub fn parse_date(date_str: &str) -> (r: Option<Date>)
    ensures
        date_view(r) == DateView::parsed(date_str@),
        r matches Some(d) ==> d@.wf() && 0 <= d@.year,
{
    let chars = chars_of(date_str);
    let n = chars.len();
    let space = find_from(&chars, ' ', 0);
    if space > 2 || n != space + 9 || chars[space + 4] != ' ' {
        proof {
            if space > 2 {
                assert(chars@.subrange(0, space as int).len() == space);
            }
        }
        return None;
    }
    let ghost day_text = chars@.subrange(0, space as int);
    let ghost month_text = chars@.subrange(space + 1, space + 4);
    let ghost year_text = chars@.subrange(space + 5, space + 9);
    proof {
        if space >= 1 {
            assert(day_text[0] == chars@[0]);
        }
        if space == 2 {
            assert(day_text[1] == chars@[1]);
        }
        assert(year_text[0] == chars@[space + 5]);
        assert(year_text[1] == chars@[space + 6]);
        assert(year_text[2] == chars@[space + 7]);
        assert(year_text[3] == chars@[space + 8]);
    }
    if space == 0 || !is_ascii_digit(chars[0]) || chars[0] == '0' {
        return None;
    }
    let mut day: i8 = digit_of(chars[0]) as i8;
    if space == 2 {
        if !is_ascii_digit(chars[1]) {
            return None;
        }
        day = 10 * day + digit_of(chars[1]) as i8;
    }
    let mut word: Vec<char> = Vec::new();
    word.push(chars[space + 1]);
    word.push(chars[space + 2]);
    word.push(chars[space + 3]);
    assert(word@ =~= month_text);
    let month = match month_number(&word) {
        Some(m) => m,
        None => {
            return None;
        },
    };
    if !(is_ascii_digit(chars[space + 5]) && is_ascii_digit(chars[space + 6]) && is_ascii_digit(
        chars[space + 7],
    ) && is_ascii_digit(chars[space + 8])) {
        return None;
    }
    let year: i16 = 1000 * (digit_of(chars[space + 5]) as i16) + 100 * (digit_of(
        chars[space + 6],
    ) as i16) + 10 * (digit_of(chars[space + 7]) as i16) + digit_of(chars[space + 8]) as i16;
    Date::new(year, month, day)
}

} // verus!
