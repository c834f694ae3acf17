//! The monthly name codec: a validated year and month with the file name
//! `"{year:04}_{month:02}_monthly.{ext}"`, parsed back from exactly three
//! separator-delimited fields.

use vstd::prelude::*;
use vstd::string::StrSliceExecFns;
use vstd::string::StringExecFns;

use crate::app_config::{AppConfig, PatchFromConfig};
use crate::calendar;
use crate::constants::{DIGIT_SEP, MD_EXT, MONTH_VAR_NAME, YEAR_VAR_NAME};
use crate::dates_names::{
    DateNameForFile, HasMonth, HasYear, InitialabeFromTemplate, ResolvePlaceholders, ToDateTuple,
};
use crate::digits::{
    dec_digits, pad2_digits, pad4_digits, parse_u32_spec, push_u32_decimal, push_u32_pad2,
    push_u32_pad4,
};
use crate::errors::{AppError, AppResult};
use crate::strutil::{split_on, split_range, trim_bounds, trim_spec};
use crate::units_validated::{ValidatedMonth, ValidatedYear};

verus! {

/// The mathematical content of a `MonthlyName`.
pub struct MonthlyView {
    pub year: u32,
    pub month: u32,
    pub name: Seq<char>,
}

/// The canonical monthly file name for a year and month.
pub open spec fn monthly_name_chars(y: u32, m: u32, ext: Seq<char>) -> Seq<char> {
    pad4_digits(y as nat) + seq![DIGIT_SEP] + pad2_digits(m as nat) + seq![
        DIGIT_SEP,
        'm',
        'o',
        'n',
        't',
        'h',
        'l',
        'y',
        '.',
    ] + ext
}

/// The listing tuple: `"{year:04} {month:02}"`.
pub open spec fn monthly_tuple_chars(y: u32, m: u32) -> Seq<char> {
    pad4_digits(y as nat) + seq![' '] + pad2_digits(m as nat)
}

/// What parsing a monthly file name yields: the input must trim and split
/// into exactly three fields, the first two numeric and in bounds.
pub open spec fn parse_monthly_spec(s: Seq<char>) -> Result<(u32, u32), AppError> {
    let parts = split_on(trim_spec(s), DIGIT_SEP);
    if parts.len() != 3 {
        Err(AppError::InvalidFormat)
    } else {
        match parse_u32_spec(parts[0]) {
            None => Err(AppError::YearNotNumeric),
            Some(y) => match parse_u32_spec(parts[1]) {
                None => Err(AppError::MonthNotNumeric),
                Some(m) => if y > calendar::YEAR_UPPER_BOUND {
                    Err(AppError::YearOutOfBounds)
                } else if m < 1 || m > 12 {
                    Err(AppError::MonthOutOfBounds)
                } else {
                    Ok((y, m))
                },
            },
        }
    }
}

/// A monthly journal name: validated year and month plus the file name that
/// was derived for them or that they were parsed from.
#[derive(Debug)]
pub struct MonthlyName {
    name: String,
    year: ValidatedYear,
    month: ValidatedMonth,
}

impl View for MonthlyName {
    type V = MonthlyView;

    closed spec fn view(&self) -> MonthlyView {
        MonthlyView { year: self.year.val(), month: self.month.val(), name: self.name@ }
    }
}

impl MonthlyName {
    pub open spec fn inv(self) -> bool {
        self@.year <= calendar::YEAR_UPPER_BOUND && 1 <= self@.month <= 12
    }

    /// Builds the canonical file name for the given fields.
    fn create_name(year: u32, month: u32, ext: &str) -> (r: String)
        ensures
            r@ == monthly_name_chars(year, month, ext@),
    {
        let mut name = String::new();
        push_u32_pad4(&mut name, year);
        name.push(DIGIT_SEP);
        push_u32_pad2(&mut name, month);
        name.push(DIGIT_SEP);
        name.append("monthly.");
        name.append(ext);
        proof {
            reveal_strlit("monthly.");
            assert("monthly."@ =~= seq!['m', 'o', 'n', 't', 'h', 'l', 'y', '.']);
            assert(name@ =~= monthly_name_chars(year, month, ext@));
        }
        name
    }

    /// Derives the canonical name and validates the fields; fails exactly on
    /// a year or month out of bounds.
    pub fn from_ym(year: u32, month: u32, ext: &str) -> (r: AppResult<Self>)
        ensures
            r is Ok <==> year <= calendar::YEAR_UPPER_BOUND && 1 <= month <= 12,
            r matches Ok(mn) ==> mn.inv() && mn@.year == year && mn@.month == month && mn@.name
                == monthly_name_chars(year, month, ext@),
            r matches Err(e) ==> e == (if year > calendar::YEAR_UPPER_BOUND {
                AppError::YearOutOfBounds
            } else {
                AppError::MonthOutOfBounds
            }),
    {
        let name = Self::create_name(year, month, ext);
        Self::with_name(year, month, name)
    }

    /// Wraps already validated units, deriving the canonical name.
    fn new(year: ValidatedYear, month: ValidatedMonth) -> (r: Self)
        requires
            year.wf(),
            month.wf(),
        ensures
            r.inv(),
            r@.year == year.val() && r@.month == month.val(),
            r@.name == monthly_name_chars(year.val(), month.val(), MD_EXT@),
    {
        let name = Self::create_name(year.get(), month.get(), MD_EXT);
        Self { year, month, name }
    }

    /// Validates the fields and keeps the given name as it stands.
    pub fn with_name(year: u32, month: u32, name: String) -> (r: AppResult<Self>)
        ensures
            r is Ok <==> year <= calendar::YEAR_UPPER_BOUND && 1 <= month <= 12,
            r matches Ok(mn) ==> mn.inv() && mn@.year == year && mn@.month == month && mn@.name
                == name@,
            r matches Err(e) ==> e == (if year > calendar::YEAR_UPPER_BOUND {
                AppError::YearOutOfBounds
            } else {
                AppError::MonthOutOfBounds
            }),
    {
        let year = ValidatedYear::try_from(year)?;
        let month = ValidatedMonth::try_from(month)?;
        Ok(Self { year, month, name })
    }

    /// Resolves an open-by query to a monthly name; the running month and
    /// year come from the clock, so for those queries only the month/year
    /// relation promised by the query itself is known.  The only failure is
    /// a clock that reports a year outside the supported range.
    pub fn from_month_in_year(month_in_year: &crate::open_by::OpenByMonthInYear) -> (r: AppResult<
        Self,
    >)
        requires
            month_in_year.wf(),
        ensures
            r matches Ok(mn) ==> mn.inv() && mn@.name == monthly_name_chars(
                mn@.year,
                mn@.month,
                MD_EXT@,
            ),
            r matches Ok(mn) ==> (match *month_in_year {
                crate::open_by::OpenByMonthInYear::CurrentMonth => true,
                crate::open_by::OpenByMonthInYear::InCurrentYear(m) => mn@.month == m.val(),
                crate::open_by::OpenByMonthInYear::WithYear { month, year } => mn@.month
                    == month.val() && mn@.year == year.val(),
            }),
            *month_in_year matches crate::open_by::OpenByMonthInYear::WithYear { .. } ==> r is Ok,
            r matches Err(e) ==> e == AppError::YearOutOfBounds,
    {
        match month_in_year {
            crate::open_by::OpenByMonthInYear::CurrentMonth => {
                match calendar::today_ymd() {
                    Some((y, m, _d)) => from_ym_err_rewrap(y, m),
                    None => Err(AppError::YearOutOfBounds),
                }
            },
            crate::open_by::OpenByMonthInYear::InCurrentYear(month) => {
                match calendar::today_ymd() {
                    Some((y, _m, _d)) => {
                        let year = ValidatedYear::try_from(y)?;
                        Ok(Self::new(year, *month))
                    },
                    None => Err(AppError::YearOutOfBounds),
                }
            },
            crate::open_by::OpenByMonthInYear::WithYear { month, year } => Ok(
                Self::new(*year, *month),
            ),
        }
    }

    /// Parses a monthly file name, as `parse_monthly_spec` describes; a
    /// successful parse carries the canonical name for the parsed fields.
    pub fn parse_monthly(s: &str) -> (r: AppResult<Self>)
        ensures
            (r is Ok <==> parse_monthly_spec(s@) is Ok),
            r matches Ok(mn) ==> parse_monthly_spec(s@) matches Ok(t) && mn.inv() && mn@.year
                == t.0 && mn@.month == t.1 && mn@.name == monthly_name_chars(t.0, t.1, MD_EXT@),
            r matches Err(e) ==> parse_monthly_spec(s@) == Err::<(u32, u32), AppError>(e),
    {
        let (a, b) = trim_bounds(s);
        let parts = split_range(s, a, b, DIGIT_SEP);
        proof {
            assert(parts.deep_view() == split_on(trim_spec(s@), DIGIT_SEP));
        }
        if parts.len() != 3 {
            return Err(AppError::InvalidFormat);
        }
        let seg0 = &parts[0];
        let seg1 = &parts[1];
        proof {
            assert(parts.deep_view()[0] == parts[0]@);
            assert(parts.deep_view()[1] == parts[1]@);
            assert(seg0@.subrange(0, seg0@.len() as int) =~= seg0@);
            assert(seg1@.subrange(0, seg1@.len() as int) =~= seg1@);
        }
        let y = match crate::digits::parse_u32_range(seg0.as_str(), 0, seg0.as_str().unicode_len()) {
            Some(y) => y,
            None => {
                return Err(AppError::YearNotNumeric);
            },
        };
        let m = match crate::digits::parse_u32_range(seg1.as_str(), 0, seg1.as_str().unicode_len()) {
            Some(m) => m,
            None => {
                return Err(AppError::MonthNotNumeric);
            },
        };
        Self::from_ym(y, m, MD_EXT)
    }
}

/// Rewraps `from_ym`'s month error: on the clock path the month always fits,
/// so only the year can fail.
fn from_ym_err_rewrap(y: u32, m: u32) -> (r: AppResult<MonthlyName>)
    requires
        1 <= m <= 12,
    ensures
        r is Ok <==> y <= calendar::YEAR_UPPER_BOUND,
        r matches Ok(mn) ==> mn.inv() && mn@.year == y && mn@.month == m && mn@.name
            == monthly_name_chars(y, m, MD_EXT@),
        r matches Err(e) ==> e == AppError::YearOutOfBounds,
{
    MonthlyName::from_ym(y, m, MD_EXT)
}

impl core::str::FromStr for MonthlyName {
    type Err = AppError;

    fn from_str(s: &str) -> Result<Self, Self::Err> {
        Self::parse_monthly(s)
    }
}

impl PartialEq for MonthlyName {
    fn eq(&self, other: &Self) -> (r: bool) {
        proof {
            crate::units_validated::lemma_year_eq(self.year, other.year);
            crate::units_validated::lemma_month_eq(self.month, other.month);
        }
        self.year == other.year && self.month == other.month && self.name == other.name
    }
}

impl vstd::std_specs::cmp::PartialEqSpecImpl for MonthlyName {
    open spec fn obeys_eq_spec() -> bool {
        true
    }

    open spec fn eq_spec(&self, other: &Self) -> bool {
        self@ == other@
    }
}

impl HasYear for MonthlyName {
    open spec fn year_of(v: MonthlyView) -> u32 {
        v.year
    }

    fn year(&self) -> (r: u32) {
        self.year.get()
    }

    fn is_in_year(&self, other_year: u32) -> (r: bool) {
        self.year.get() == other_year
    }
}

impl HasMonth for MonthlyName {
    open spec fn month_of(v: MonthlyView) -> u32 {
        v.month
    }

    fn month(&self) -> (r: u32) {
        self.month.get()
    }

    fn is_in_month(&self, other_month: u32) -> (r: bool) {
        self.month.get() == other_month
    }
}

impl ToDateTuple for MonthlyName {
    open spec fn date_tuple_of(v: MonthlyView) -> Seq<char> {
        monthly_tuple_chars(v.year, v.month)
    }

    fn to_date_tuple(&self) -> (r: String) {
        let mut out = String::new();
        push_u32_pad4(&mut out, self.year.get());
        out.push(' ');
        push_u32_pad2(&mut out, self.month.get());
        proof {
            assert(out@ =~= monthly_tuple_chars(self@.year, self@.month));
        }
        out
    }
}

impl DateNameForFile for MonthlyName {
    open spec fn inv_of(v: MonthlyView) -> bool {
        v.year <= calendar::YEAR_UPPER_BOUND && 1 <= v.month <= 12
    }

    open spec fn name_of(v: MonthlyView) -> Seq<char> {
        v.name
    }

    /// Year first, then month: names order by their date fields.
    open spec fn date_key_of(v: MonthlyView) -> u64 {
        (v.year * 10000 + v.month * 100) as u64
    }

    open spec fn parse_spec(s: Seq<char>) -> Option<MonthlyView> {
        match parse_monthly_spec(s) {
            Ok(t) => Some(
                (MonthlyView { year: t.0, month: t.1, name: monthly_name_chars(t.0, t.1, MD_EXT@) }),
            ),
            Err(_) => None,
        }
    }

    fn name(&self) -> (r: &str) {
        self.name.as_str()
    }

    fn date_key(&self) -> (r: u64) {
        self.year.get() as u64 * 10000 + self.month.get() as u64 * 100
    }

    fn parse_name(s: &str) -> (r: Option<Self>) {
        match Self::parse_monthly(s) {
            Ok(mn) => Some(mn),
            Err(_) => None,
        }
    }
}

impl InitialabeFromTemplate for MonthlyName {
    open spec fn template_choice_of(v: MonthlyView, config: AppConfig) -> Option<Seq<char>> {
        config.monthly_template_view()
    }

    fn choose_template(&self, to_choose_from: &AppConfig) -> (r: PatchFromConfig) {
        to_choose_from.monthly_template()
    }
}

impl ResolvePlaceholders for MonthlyName {
    open spec fn resolve_of(v: MonthlyView, name: Seq<char>) -> Option<Seq<char>> {
        if name == MONTH_VAR_NAME@ {
            Some(dec_digits(v.month as nat))
        } else if name == YEAR_VAR_NAME@ {
            Some(dec_digits(v.year as nat))
        } else {
            None
        }
    }

    fn resolve_variable(&self, to_resolve: &str) -> (r: Option<String>) {
        if crate::strutil::str_eq(to_resolve, MONTH_VAR_NAME) {
            let mut out = String::new();
            push_u32_decimal(&mut out, self.month.get());
            Some(out)
        } else if crate::strutil::str_eq(to_resolve, YEAR_VAR_NAME) {
            let mut out = String::new();
            push_u32_decimal(&mut out, self.year.get());
            Some(out)
        } else {
            None
        }
    }
}


/// Round trip: for every supported year and month, formatting them as a
/// monthly name and parsing that name back yields exactly the original
/// fields, so the parsed `MonthlyName` equals the one built from them.
pub proof fn lemma_monthly_name_round_trip(y: u32, m: u32)
    requires
        y <= calendar::YEAR_UPPER_BOUND,
        1 <= m <= 12,
    ensures
        parse_monthly_spec(monthly_name_chars(y, m, MD_EXT@)) == Ok::<(u32, u32), AppError>(
            (y, m),
        ),
{
    reveal_strlit("md");
    let ext = MD_EXT@;
    assert(ext =~= seq!['m', 'd']);
    let a = pad4_digits(y as nat);
    let b = pad2_digits(m as nat);
    let rest0 = seq!['m', 'o', 'n', 't', 'h', 'l', 'y', '.'] + ext;
    let name = monthly_name_chars(y, m, ext);
    crate::digits::lemma_pad4_all_digits(y as nat);
    crate::digits::lemma_pad2_all_digits(m as nat);
    crate::strutil::lemma_digits_have_no_sep(a);
    crate::strutil::lemma_digits_have_no_sep(b);
    assert(name[0] == a[0]);
    assert(!crate::strutil::is_space(name[0]));
    assert(trim_spec(name) == name) by {
        assert(crate::strutil::trim_front_spec(name) == name);
        assert(name.last() == 'd');
        assert(crate::strutil::trim_back_spec(name) == name);
    }
    let rest1 = b + seq![DIGIT_SEP] + rest0;
    assert(name =~= a + seq![DIGIT_SEP] + rest1);
    crate::strutil::lemma_split_on_glue(a, DIGIT_SEP, rest1);
    crate::strutil::lemma_split_on_glue(b, DIGIT_SEP, rest0);
    assert(forall|j: int| 0 <= j < rest0.len() ==> rest0[j] != DIGIT_SEP) by {
        assert(rest0 =~= seq!['m', 'o', 'n', 't', 'h', 'l', 'y', '.', 'm', 'd']);
    }
    crate::strutil::lemma_split_on_first(rest0, DIGIT_SEP, rest0.len() as int);
    let parts = split_on(name, DIGIT_SEP);
    assert(parts.len() == 3);
    assert(parts[0] == a);
    assert(parts[1] == b);
    crate::digits::lemma_parse_of_pad4(y);
    crate::digits::lemma_parse_of_pad2(m);
}

} // verus!
