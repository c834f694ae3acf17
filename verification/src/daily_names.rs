//! The daily name codec: a validated date together with its canonical file
//! name `"{year}_{month:02}_{day:02}_daily.{ext}"`, with a strict parser for
//! the reverse path.

use vstd::prelude::*;
use vstd::string::StrSliceExecFns;
use vstd::string::StringExecFns;

use crate::app_config::{AppConfig, PatchFromConfig};
use crate::calendar;
use crate::constants::{DAY_VAR_NAME, DIGIT_SEP, MD_EXT, MONTH_VAR_NAME, YEAR_VAR_NAME};
use crate::dates_names::{
    DateNameForFile, HasMonth, HasYear, InitialabeFromTemplate, ResolvePlaceholders, ToDateTuple,
};
use crate::digits::{
    dec_digits, pad2_digits, parse_u32_spec, push_u32_decimal, push_u32_pad2,
};
use crate::errors::AppError;
use crate::strutil::{split_on, split_range, trim_bounds, trim_spec};
use crate::units_validated::{ValidatedDate, ValidatedDay, ValidatedMonth, ValidatedYear};

verus! {

/// Why a string failed to parse as a daily name.
#[derive(Debug, Clone, Copy, PartialEq, Eq, Structural)]
pub enum ParseDailyNameError {
    YearNotANumber,
    MonthNotANumber,
    DayNotANumber,
    MissingYear,
    MissingMonth,
    InvalidDate,
}

impl ParseDailyNameError {
    /// A human-readable description, in place of a `Display` rendering.
    pub fn message(&self) -> String {
        match self {
            ParseDailyNameError::YearNotANumber => String::from_str("Year is not a number"),
            ParseDailyNameError::MonthNotANumber => String::from_str("Month is not a number"),
            ParseDailyNameError::DayNotANumber => String::from_str("Day is not a number"),
            ParseDailyNameError::MissingYear => String::from_str(
                "No year provided for the name of daily",
            ),
            ParseDailyNameError::MissingMonth => String::from_str(
                "No month provided for the name of daily",
            ),
            ParseDailyNameError::InvalidDate => String::from_str(
                "Year, month and day form a invalid date",
            ),
        }
    }
}

/// The mathematical content of a `DailyName`: its date fields and file name.
pub struct DailyView {
    pub year: u32,
    pub month: u32,
    pub day: u32,
    pub name: Seq<char>,
}

/// The canonical daily file name for a date.
pub open spec fn daily_name_chars(y: u32, m: u32, d: u32, ext: Seq<char>) -> Seq<char> {
    dec_digits(y as nat) + seq![DIGIT_SEP] + pad2_digits(m as nat) + seq![DIGIT_SEP] + pad2_digits(
        d as nat,
    ) + seq![DIGIT_SEP, 'd', 'a', 'i', 'l', 'y', '.'] + ext
}

/// The listing tuple for a date: `"{year} {month:02} {day:02}"`.
pub open spec fn daily_tuple_chars(y: u32, m: u32, d: u32) -> Seq<char> {
    dec_digits(y as nat) + seq![' '] + pad2_digits(m as nat) + seq![' '] + pad2_digits(d as nat)
}

/// What parsing a daily file name yields: the date fields, or the error the
/// input deserves.  The input is trimmed and split on the separator; the
/// field count decides the structural error, each numeric field must parse,
/// and the fields must form a real calendar date.
pub open spec fn parse_daily_spec(s: Seq<char>) -> Result<(u32, u32, u32), ParseDailyNameError> {
    let parts = split_on(trim_spec(s), DIGIT_SEP);
    if parts.len() == 1 {
        Err(ParseDailyNameError::MissingYear)
    } else if parts.len() == 2 {
        Err(ParseDailyNameError::MissingMonth)
    } else {
        match parse_u32_spec(parts[0]) {
            None => Err(ParseDailyNameError::YearNotANumber),
            Some(y) => match parse_u32_spec(parts[1]) {
                None => Err(ParseDailyNameError::MonthNotANumber),
                Some(m) => match parse_u32_spec(parts[2]) {
                    None => Err(ParseDailyNameError::DayNotANumber),
                    Some(d) => if calendar::is_valid_date(y as int, m as int, d as int) {
                        Ok((y, m, d))
                    } else {
                        Err(ParseDailyNameError::InvalidDate)
                    },
                },
            },
        }
    }
}

/// A daily journal name: a validated date and the file name derived from it.
#[derive(Debug)]
pub struct DailyName {
    date: ValidatedDate,
    name: String,
}

impl View for DailyName {
    type V = DailyView;

    closed spec fn view(&self) -> DailyView {
        DailyView {
            year: self.date.y(),
            month: self.date.m(),
            day: self.date.d(),
            name: self.name@,
        }
    }
}

impl DailyName {
    /// Every constructed value carries a real date.
    pub open spec fn inv(self) -> bool {
        calendar::is_valid_date(self@.year as int, self@.month as int, self@.day as int)
    }

    /// Builds the canonical file name for the given fields.
    fn format_name(year: u32, month: u32, day: u32, ext: &str) -> (r: String)
        ensures
            r@ == daily_name_chars(year, month, day, ext@),
    {
        let mut name = String::new();
        push_u32_decimal(&mut name, year);
        name.push(DIGIT_SEP);
        push_u32_pad2(&mut name, month);
        name.push(DIGIT_SEP);
        push_u32_pad2(&mut name, day);
        name.push(DIGIT_SEP);
        name.append("daily.");
        name.append(ext);
        proof {
            reveal_strlit("daily.");
            assert("daily."@ =~= seq!['d', 'a', 'i', 'l', 'y', '.']);
            assert(name@ =~= daily_name_chars(year, month, day, ext@));
        }
        name
    }

    /// Validates the fields and derives the file name; fails exactly on
    /// fields that do not form a real calendar date.
    pub fn new(year: u32, month: u32, day: u32, ext: &str) -> (r: Result<Self, AppError>)
        ensures
            r is Ok <==> calendar::is_valid_date(year as int, month as int, day as int),
            r matches Ok(dn) ==> dn.inv() && dn@.year == year && dn@.month == month && dn@.day
                == day && dn@.name == daily_name_chars(year, month, day, ext@),
            r matches Err(e) ==> e == (if year > calendar::YEAR_UPPER_BOUND {
                AppError::YearOutOfBounds
            } else if month < 1 || month > 12 {
                AppError::MonthOutOfBounds
            } else if day < 1 || day > 31 {
                AppError::DayOutOfBounds
            } else {
                AppError::InvalidDate
            }),
    {
        let y = ValidatedYear::try_from(year)?;
        let m = ValidatedMonth::try_from(month)?;
        let d = ValidatedDay::try_from(day)?;
        let name = Self::format_name(year, month, day, ext);
        let date = ValidatedDate::new(y, m, d)?;
        Ok(Self { date, name })
    }

    /// Wraps an already validated date, deriving the canonical name.
    pub fn from_date(value: ValidatedDate) -> (r: Self)
        requires
            value.wf(),
        ensures
            r.inv(),
            r@.year == value.y() && r@.month == value.m() && r@.day == value.d(),
            r@.name == daily_name_chars(value.y(), value.m(), value.d(), MD_EXT@),
    {
        let name = Self::format_name(value.year(), value.month(), value.day(), MD_EXT);
        Self { date: value, name }
    }

    /// The daily name for today, as the clock reports it; fails only when
    /// the clock stands outside the supported years.
    pub fn create_today_name() -> (r: Result<Self, AppError>)
        ensures
            r matches Ok(dn) ==> dn.inv() && dn@.name == daily_name_chars(
                dn@.year,
                dn@.month,
                dn@.day,
                MD_EXT@,
            ),
            r matches Err(e) ==> e == AppError::YearOutOfBounds,
    {
        match calendar::today_ymd() {
            Some((y, m, d)) => {
                match ValidatedDate::from_ymd(y, m, d) {
                    Ok(date) => Ok(Self::from_date(date)),
                    Err(_) => {
                        proof {
                            assert(false);
                        }
                        Err(AppError::YearOutOfBounds)
                    },
                }
            },
            None => Err(AppError::YearOutOfBounds),
        }
    }

    /// The daily name a number of days before or after today; fails when the
    /// clock stands outside the supported years or the step leaves them.
    pub fn create_from_range(range: &crate::open_by::OpenByDaysInTime) -> (r: Result<
        Self,
        AppError,
    >)
        ensures
            r matches Ok(dn) ==> dn.inv() && dn@.name == daily_name_chars(
                dn@.year,
                dn@.month,
                dn@.day,
                MD_EXT@,
            ),
            r matches Err(e) ==> e == AppError::YearOutOfBounds || e == AppError::DateOutOfRange,
    {
        match calendar::today_ymd() {
            Some((y, m, d)) => {
                match ValidatedDate::from_ymd(y, m, d) {
                    Ok(today) => {
                        let wanted = range.from_point_in_time(today)?;
                        Ok(Self::from_date(wanted))
                    },
                    Err(_) => {
                        proof {
                            assert(false);
                        }
                        Err(AppError::YearOutOfBounds)
                    },
                }
            },
            None => Err(AppError::YearOutOfBounds),
        }
    }

    pub fn date(&self) -> (r: ValidatedDate)
        ensures
            r.y() == self@.year && r.m() == self@.month && r.d() == self@.day,
    {
        self.date
    }

    pub fn is_in_day(&self, day: u32) -> (r: bool)
        ensures
            r == (self@.day == day),
    {
        self.date.day() == day
    }

    /// Parses a daily file name, as `parse_daily_spec` describes; a
    /// successful parse carries the canonical name for the parsed date.
    pub fn parse_daily(s: &str) -> (r: Result<Self, ParseDailyNameError>)
        ensures
            (r is Ok <==> parse_daily_spec(s@) is Ok),
            r matches Ok(dn) ==> parse_daily_spec(s@) matches Ok(t) && dn.inv() && dn@.year == t.0
                && dn@.month == t.1 && dn@.day == t.2 && dn@.name == daily_name_chars(
                t.0,
                t.1,
                t.2,
                MD_EXT@,
            ),
            r matches Err(e) ==> parse_daily_spec(s@) == Err::<(u32, u32, u32),
                ParseDailyNameError>(e),
    {
        let (a, b) = trim_bounds(s);
        let parts = split_range(s, a, b, DIGIT_SEP);
        proof {
            assert(parts.deep_view() == split_on(trim_spec(s@), DIGIT_SEP));
        }
        if parts.len() == 1 {
            return Err(ParseDailyNameError::MissingYear);
        }
        if parts.len() == 2 {
            return Err(ParseDailyNameError::MissingMonth);
        }
        let seg0 = &parts[0];
        let seg1 = &parts[1];
        let seg2 = &parts[2];
        proof {
            assert(parts.deep_view()[0] == parts[0]@);
            assert(parts.deep_view()[1] == parts[1]@);
            assert(parts.deep_view()[2] == parts[2]@);
            assert(seg0@.subrange(0, seg0@.len() as int) =~= seg0@);
            assert(seg1@.subrange(0, seg1@.len() as int) =~= seg1@);
            assert(seg2@.subrange(0, seg2@.len() as int) =~= seg2@);
        }
        let y = match crate::digits::parse_u32_range(seg0.as_str(), 0, seg0.as_str().unicode_len()) {
            Some(y) => y,
            None => {
                return Err(ParseDailyNameError::YearNotANumber);
            },
        };
        let m = match crate::digits::parse_u32_range(seg1.as_str(), 0, seg1.as_str().unicode_len()) {
            Some(m) => m,
            None => {
                return Err(ParseDailyNameError::MonthNotANumber);
            },
        };
        let d = match crate::digits::parse_u32_range(seg2.as_str(), 0, seg2.as_str().unicode_len()) {
            Some(d) => d,
            None => {
                return Err(ParseDailyNameError::DayNotANumber);
            },
        };
        match Self::new(y, m, d, MD_EXT) {
            Ok(dn) => Ok(dn),
            Err(_) => Err(ParseDailyNameError::InvalidDate),
        }
    }
}

impl core::str::FromStr for DailyName {
    type Err = ParseDailyNameError;

    fn from_str(s: &str) -> Result<Self, Self::Err> {
        Self::parse_daily(s)
    }
}

impl PartialEq for DailyName {
    fn eq(&self, other: &Self) -> (r: bool) {
        proof {
            crate::units_validated::lemma_date_eq(self.date, other.date);
        }
        self.date == other.date && self.name == other.name
    }
}

impl vstd::std_specs::cmp::PartialEqSpecImpl for DailyName {
    open spec fn obeys_eq_spec() -> bool {
        true
    }

    open spec fn eq_spec(&self, other: &Self) -> bool {
        self@ == other@
    }
}

impl Eq for DailyName {

}

impl HasYear for DailyName {
    open spec fn year_of(v: DailyView) -> u32 {
        v.year
    }

    fn year(&self) -> (r: u32) {
        self.date.year()
    }

    fn is_in_year(&self, other_year: u32) -> (r: bool) {
        self.date.year() == other_year
    }
}

impl HasMonth for DailyName {
    open spec fn month_of(v: DailyView) -> u32 {
        v.month
    }

    fn month(&self) -> (r: u32) {
        self.date.month()
    }

    fn is_in_month(&self, other_month: u32) -> (r: bool) {
        self.date.month() == other_month
    }
}

impl ToDateTuple for DailyName {
    open spec fn date_tuple_of(v: DailyView) -> Seq<char> {
        daily_tuple_chars(v.year, v.month, v.day)
    }

    fn to_date_tuple(&self) -> (r: String) {
        let mut out = String::new();
        push_u32_decimal(&mut out, self.date.year());
        out.push(' ');
        push_u32_pad2(&mut out, self.date.month());
        out.push(' ');
        push_u32_pad2(&mut out, self.date.day());
        proof {
            assert(out@ =~= daily_tuple_chars(self@.year, self@.month, self@.day));
        }
        out
    }
}

impl DateNameForFile for DailyName {
    open spec fn inv_of(v: DailyView) -> bool {
        calendar::is_valid_date(v.year as int, v.month as int, v.day as int)
    }

    open spec fn name_of(v: DailyView) -> Seq<char> {
        v.name
    }

    open spec fn date_key_of(v: DailyView) -> u64 {
        (v.year * 10000 + v.month * 100 + v.day) as u64
    }

    open spec fn parse_spec(s: Seq<char>) -> Option<DailyView> {
        match parse_daily_spec(s) {
            Ok(t) => Some(
                (DailyView {
                    year: t.0,
                    month: t.1,
                    day: t.2,
                    name: daily_name_chars(t.0, t.1, t.2, MD_EXT@),
                }),
            ),
            Err(_) => None,
        }
    }

    fn name(&self) -> (r: &str) {
        self.name.as_str()
    }

    fn date_key(&self) -> (r: u64) {
        self.date.year() as u64 * 10000 + self.date.month() as u64 * 100 + self.date.day() as u64
    }

    fn parse_name(s: &str) -> (r: Option<Self>) {
        match Self::parse_daily(s) {
            Ok(dn) => Some(dn),
            Err(_) => None,
        }
    }
}

impl InitialabeFromTemplate for DailyName {
    open spec fn template_choice_of(v: DailyView, config: AppConfig) -> Option<Seq<char>> {
        config.daily_template_view()
    }

    fn choose_template(&self, to_choose_from: &AppConfig) -> (r: PatchFromConfig) {
        to_choose_from.daily_template()
    }
}

impl ResolvePlaceholders for DailyName {
    open spec fn resolve_of(v: DailyView, name: Seq<char>) -> Option<Seq<char>> {
        if name == DAY_VAR_NAME@ {
            Some(dec_digits(v.day as nat))
        } else if name == MONTH_VAR_NAME@ {
            Some(dec_digits(v.month as nat))
        } else if name == YEAR_VAR_NAME@ {
            Some(dec_digits(v.year as nat))
        } else {
            None
        }
    }

    fn resolve_variable(&self, to_resolve: &str) -> (r: Option<String>) {
        if crate::strutil::str_eq(to_resolve, DAY_VAR_NAME) {
            let mut out = String::new();
            push_u32_decimal(&mut out, self.date.day());
            Some(out)
        } else if crate::strutil::str_eq(to_resolve, MONTH_VAR_NAME) {
            let mut out = String::new();
            push_u32_decimal(&mut out, self.date.month());
            Some(out)
        } else if crate::strutil::str_eq(to_resolve, YEAR_VAR_NAME) {
            let mut out = String::new();
            push_u32_decimal(&mut out, self.date.year());
            Some(out)
        } else {
            None
        }
    }
}


/// Round trip: for every real calendar date, formatting it as a daily name
/// and parsing that name back yields exactly the original date fields, so
/// the parsed `DailyName` equals the one built from the date.
pub proof fn lemma_daily_name_round_trip(y: u32, m: u32, d: u32)
    requires
        calendar::is_valid_date(y as int, m as int, d as int),
    ensures
        parse_daily_spec(daily_name_chars(y, m, d, MD_EXT@)) == Ok::<
            (u32, u32, u32),
            ParseDailyNameError,
        >((y, m, d)),
{
    reveal_strlit("md");
    let ext = MD_EXT@;
    assert(ext =~= seq!['m', 'd']);
    let a = dec_digits(y as nat);
    let bm = pad2_digits(m as nat);
    let c = pad2_digits(d as nat);
    let rest0 = seq!['d', 'a', 'i', 'l', 'y', '.'] + ext;
    let name = daily_name_chars(y, m, d, ext);
    crate::digits::lemma_dec_digits_all_digits(y as nat);
    crate::digits::lemma_pad2_all_digits(m as nat);
    crate::digits::lemma_pad2_all_digits(d as nat);
    crate::strutil::lemma_digits_have_no_sep(a);
    crate::strutil::lemma_digits_have_no_sep(bm);
    crate::strutil::lemma_digits_have_no_sep(c);
    assert(name[0] == a[0]);
    assert(!crate::strutil::is_space(name[0]));
    assert(trim_spec(name) == name) by {
        assert(crate::strutil::trim_front_spec(name) == name);
        assert(name.last() == 'd');
        assert(crate::strutil::trim_back_spec(name) == name);
    }
    let rest2 = c + seq![DIGIT_SEP] + rest0;
    let rest1 = bm + seq![DIGIT_SEP] + rest2;
    assert(name =~= a + seq![DIGIT_SEP] + rest1);
    crate::strutil::lemma_split_on_glue(a, DIGIT_SEP, rest1);
    crate::strutil::lemma_split_on_glue(bm, DIGIT_SEP, rest2);
    crate::strutil::lemma_split_on_glue(c, DIGIT_SEP, rest0);
    crate::strutil::lemma_split_on_len(rest0, DIGIT_SEP);
    let parts = split_on(name, DIGIT_SEP);
    assert(parts.len() >= 3);
    assert(parts[0] == a);
    assert(parts[1] == bm);
    assert(parts[2] == c);
    crate::digits::lemma_parse_of_dec(y);
    crate::digits::lemma_parse_of_pad2(m);
    crate::digits::lemma_parse_of_pad2(d);
}

} // verus!
