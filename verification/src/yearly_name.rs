//! The yearly name codec: a validated year with the file name
//! `"{year:04}_yearly.{ext}"`, parsed back from a name whose first
//! separator-delimited field is the year.

use vstd::prelude::*;
use vstd::string::StrSliceExecFns;
use vstd::string::StringExecFns;

use crate::app_config::{AppConfig, PatchFromConfig};
use crate::calendar;
use crate::constants::{DIGIT_SEP, MD_EXT, YEAR_VAR_NAME};
use crate::dates_names::{
    DateNameForFile, HasYear, InitialabeFromTemplate, ResolvePlaceholders, ToDateTuple,
};
use crate::digits::{dec_digits, pad4_digits, parse_u32_spec, push_u32_decimal, push_u32_pad4};
use crate::errors::AppError;
use crate::strutil::{split_on, split_str};
use crate::units_validated::ValidatedYear;

verus! {

/// Why a string failed to parse as a yearly name.
#[derive(Debug, Clone, Copy, PartialEq, Eq, Structural)]
pub enum ParseErrorForYearName {
    /// The year field is not a valid number.
    MissingYear,
    /// The name does not have the form `"{year}_yearly.{ext}"`.
    InvalidFormat,
    /// The year field is numeric but not a supported year.
    InvalidYear(AppError),
}

impl ParseErrorForYearName {
    /// A human-readable description, in place of a `Display` rendering.
    pub fn message(&self) -> String {
        match self {
            ParseErrorForYearName::MissingYear => String::from_str(
                "Year field is not a valid number",
            ),
            ParseErrorForYearName::InvalidFormat => String::from_str(
                "Name is not in the form of [year]_yearly.md",
            ),
            ParseErrorForYearName::InvalidYear(inner) => inner.message(),
        }
    }
}

/// The mathematical content of a `YearlyName`.
pub struct YearlyView {
    pub year: u32,
    pub name: Seq<char>,
}

/// The canonical yearly file name for a year.
pub open spec fn yearly_name_chars(y: u32) -> Seq<char> {
    pad4_digits(y as nat) + seq![DIGIT_SEP, 'y', 'e', 'a', 'r', 'l', 'y', '.'] + MD_EXT@
}

/// What parsing a yearly file name yields: the input must split into at
/// least two fields, the first a numeric, supported year.
pub open spec fn parse_yearly_spec(s: Seq<char>) -> Result<u32, ParseErrorForYearName> {
    let parts = split_on(s, DIGIT_SEP);
    if parts.len() < 2 {
        Err(ParseErrorForYearName::InvalidFormat)
    } else {
        match parse_u32_spec(parts[0]) {
            None => Err(ParseErrorForYearName::MissingYear),
            Some(y) => if y > calendar::YEAR_UPPER_BOUND {
                Err(ParseErrorForYearName::InvalidYear(AppError::YearOutOfBounds))
            } else {
                Ok(y)
            },
        }
    }
}

/// A yearly journal name.
#[derive(Debug)]
pub struct YearlyName {
    name: String,
    year: ValidatedYear,
}

impl View for YearlyName {
    type V = YearlyView;

    closed spec fn view(&self) -> YearlyView {
        YearlyView { year: self.year.val(), name: self.name@ }
    }
}

impl YearlyName {
    pub open spec fn inv(self) -> bool {
        self@.year <= calendar::YEAR_UPPER_BOUND
    }

    /// Builds the canonical file name for the given year.
    fn create_name(year: u32) -> (r: String)
        ensures
            r@ == yearly_name_chars(year),
    {
        let mut name = String::new();
        push_u32_pad4(&mut name, year);
        name.push(DIGIT_SEP);
        name.append("yearly.");
        name.append(MD_EXT);
        proof {
            reveal_strlit("yearly.");
            assert("yearly."@ =~= seq!['y', 'e', 'a', 'r', 'l', 'y', '.']);
            assert(name@ =~= yearly_name_chars(year));
        }
        name
    }

    /// Wraps a validated year, deriving the canonical name.
    pub fn new(year: ValidatedYear) -> (r: Self)
        requires
            year.wf(),
        ensures
            r.inv(),
            r@.year == year.val(),
            r@.name == yearly_name_chars(year.val()),
    {
        let name = Self::create_name(year.get());
        Self { year, name }
    }

    /// Parses a yearly file name, as `parse_yearly_spec` describes; a
    /// successful parse carries the canonical name for the parsed year.
    pub fn parse_yearly(s: &str) -> (r: Result<Self, ParseErrorForYearName>)
        ensures
            (r is Ok <==> parse_yearly_spec(s@) is Ok),
            r matches Ok(yn) ==> parse_yearly_spec(s@) matches Ok(y) && yn.inv() && yn@.year == y
                && yn@.name == yearly_name_chars(y),
            r matches Err(e) ==> parse_yearly_spec(s@) == Err::<u32, ParseErrorForYearName>(e),
    {
        let parts = split_str(s, DIGIT_SEP);
        proof {
            assert(parts.deep_view() == split_on(s@, DIGIT_SEP));
        }
        if parts.len() < 2 {
            return Err(ParseErrorForYearName::InvalidFormat);
        }
        let seg0 = &parts[0];
        proof {
            assert(parts.deep_view()[0] == parts[0]@);
            assert(seg0@.subrange(0, seg0@.len() as int) =~= seg0@);
        }
        let y = match crate::digits::parse_u32_range(seg0.as_str(), 0, seg0.as_str().unicode_len()) {
            Some(y) => y,
            None => {
                return Err(ParseErrorForYearName::MissingYear);
            },
        };
        match ValidatedYear::try_from(y) {
            Ok(year) => Ok(Self::new(year)),
            Err(e) => Err(ParseErrorForYearName::InvalidYear(e)),
        }
    }
}

impl core::str::FromStr for YearlyName {
    type Err = ParseErrorForYearName;

    fn from_str(s: &str) -> Result<Self, Self::Err> {
        Self::parse_yearly(s)
    }
}

impl PartialEq for YearlyName {
    fn eq(&self, other: &Self) -> (r: bool) {
        proof {
            crate::units_validated::lemma_year_eq(self.year, other.year);
        }
        self.year == other.year && self.name == other.name
    }
}

impl vstd::std_specs::cmp::PartialEqSpecImpl for YearlyName {
    open spec fn obeys_eq_spec() -> bool {
        true
    }

    open spec fn eq_spec(&self, other: &Self) -> bool {
        self@ == other@
    }
}

impl HasYear for YearlyName {
    open spec fn year_of(v: YearlyView) -> u32 {
        v.year
    }

    fn year(&self) -> (r: u32) {
        self.year.get()
    }

    fn is_in_year(&self, other_year: u32) -> (r: bool) {
        self.year.get() == other_year
    }
}

impl ToDateTuple for YearlyName {
    open spec fn date_tuple_of(v: YearlyView) -> Seq<char> {
        pad4_digits(v.year as nat)
    }

    fn to_date_tuple(&self) -> (r: String) {
        let mut out = String::new();
        push_u32_pad4(&mut out, self.year.get());
        proof {
            assert(out@ =~= pad4_digits(self@.year as nat));
        }
        out
    }
}

impl DateNameForFile for YearlyName {
    open spec fn inv_of(v: YearlyView) -> bool {
        v.year <= calendar::YEAR_UPPER_BOUND
    }

    open spec fn name_of(v: YearlyView) -> Seq<char> {
        v.name
    }

    open spec fn date_key_of(v: YearlyView) -> u64 {
        (v.year * 10000) as u64
    }

    open spec fn parse_spec(s: Seq<char>) -> Option<YearlyView> {
        match parse_yearly_spec(s) {
            Ok(y) => Some((YearlyView { year: y, name: yearly_name_chars(y) })),
            Err(_) => None,
        }
    }

    fn name(&self) -> (r: &str) {
        self.name.as_str()
    }

    fn date_key(&self) -> (r: u64) {
        self.year.get() as u64 * 10000
    }

    fn parse_name(s: &str) -> (r: Option<Self>) {
        match Self::parse_yearly(s) {
            Ok(yn) => Some(yn),
            Err(_) => None,
        }
    }
}

impl InitialabeFromTemplate for YearlyName {
    open spec fn template_choice_of(v: YearlyView, config: AppConfig) -> Option<Seq<char>> {
        config.yearly_template_view()
    }

    fn choose_template(&self, to_choose_from: &AppConfig) -> (r: PatchFromConfig) {
        to_choose_from.yearly_template()
    }
}

impl ResolvePlaceholders for YearlyName {
    open spec fn resolve_of(v: YearlyView, name: Seq<char>) -> Option<Seq<char>> {
        if name == YEAR_VAR_NAME@ {
            Some(dec_digits(v.year as nat))
        } else {
            None
        }
    }

    fn resolve_variable(&self, to_resolve: &str) -> (r: Option<String>) {
        if crate::strutil::str_eq(to_resolve, YEAR_VAR_NAME) {
            let mut out = String::new();
            push_u32_decimal(&mut out, self.year.get());
            Some(out)
        } else {
            None
        }
    }
}


/// Round trip: for every supported year, formatting it as a yearly name and
/// parsing that name back yields exactly the original year, so the parsed
/// `YearlyName` equals the one built from it.
pub proof fn lemma_yearly_name_round_trip(y: u32)
    requires
        y <= calendar::YEAR_UPPER_BOUND,
    ensures
        parse_yearly_spec(yearly_name_chars(y)) == Ok::<u32, ParseErrorForYearName>(y),
{
    reveal_strlit("md");
    let ext = MD_EXT@;
    assert(ext =~= seq!['m', 'd']);
    let a = pad4_digits(y as nat);
    let rest0 = seq!['y', 'e', 'a', 'r', 'l', 'y', '.'] + ext;
    let name = yearly_name_chars(y);
    crate::digits::lemma_pad4_all_digits(y as nat);
    crate::strutil::lemma_digits_have_no_sep(a);
    assert(name =~= a + seq![DIGIT_SEP] + rest0);
    crate::strutil::lemma_split_on_glue(a, DIGIT_SEP, rest0);
    crate::strutil::lemma_split_on_len(rest0, DIGIT_SEP);
    let parts = split_on(name, DIGIT_SEP);
    assert(parts.len() >= 2);
    assert(parts[0] == a);
    crate::digits::lemma_parse_of_pad4(y);
}

} // verus!
