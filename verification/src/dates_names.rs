//! The capabilities shared by the three name codecs: carrying a year or a
//! month, rendering a date tuple, naming a file, and resolving the built-in
//! placeholder variables.  Each capability speaks about the codec's view, so
//! generic filtering, sorting and parsing can be specified exactly.

use vstd::prelude::*;

use crate::app_config::{AppConfig, PatchFromConfig};

verus! {

/// Carries a year and can be filtered by it.
pub trait HasYear: View {
    spec fn year_of(v: Self::V) -> u32;

    fn year(&self) -> (r: u32)
        ensures
            r == Self::year_of(self@),
    ;

    fn is_in_year(&self, other_year: u32) -> (r: bool)
        ensures
            r == (Self::year_of(self@) == other_year),
    ;
}

/// Carries a month and can be filtered by it.
pub trait HasMonth: View {
    spec fn month_of(v: Self::V) -> u32;

    fn month(&self) -> (r: u32)
        ensures
            r == Self::month_of(self@),
    ;

    fn is_in_month(&self, other_month: u32) -> (r: bool)
        ensures
            r == (Self::month_of(self@) == other_month),
    ;
}

/// Renders the date fields as the space-separated tuple used for listings.
pub trait ToDateTuple: View {
    spec fn date_tuple_of(v: Self::V) -> Seq<char>;

    fn to_date_tuple(&self) -> (r: String)
        ensures
            r@ == Self::date_tuple_of(self@),
    ;
}

/// A journal name: it has a file name, parses back from one, and orders by
/// its date fields through a numeric key.
pub trait DateNameForFile: ToDateTuple + Sized {
    /// The well-formedness every value of the codec upholds.
    spec fn inv_of(v: Self::V) -> bool;

    spec fn name_of(v: Self::V) -> Seq<char>;

    /// Numeric key that orders values exactly as their date fields do.
    spec fn date_key_of(v: Self::V) -> u64;

    /// What parsing a file name yields, if anything.
    spec fn parse_spec(s: Seq<char>) -> Option<Self::V>;

    fn name(&self) -> (r: &str)
        ensures
            r@ == Self::name_of(self@),
    ;

    fn date_key(&self) -> (r: u64)
        ensures
            r == Self::date_key_of(self@),
    ;

    fn parse_name(s: &str) -> (r: Option<Self>)
        ensures
            (r is Some <==> Self::parse_spec(s@) is Some),
            r matches Some(v) ==> Self::parse_spec(s@) == Some(v@) && Self::inv_of(v@),
    ;
}

/// Picks the template the config file assigns to this kind of journal.
pub trait InitialabeFromTemplate: View {
    spec fn template_choice_of(v: Self::V, config: AppConfig) -> Option<Seq<char>>;

    fn choose_template(&self, to_choose_from: &AppConfig) -> (r: PatchFromConfig)
        ensures
            r.path_view() == Self::template_choice_of(self@, *to_choose_from),
    ;
}

/// Resolves the built-in placeholder variables to the journal's own date
/// components; unknown names resolve to nothing.
pub trait ResolvePlaceholders: View {
    spec fn resolve_of(v: Self::V, name: Seq<char>) -> Option<Seq<char>>;

    fn resolve_variable(&self, to_resolve: &str) -> (r: Option<String>)
        ensures
            (r is Some <==> Self::resolve_of(self@, to_resolve@) is Some),
            r matches Some(v) ==> Self::resolve_of(self@, to_resolve@) == Some(v@),
    ;
}

} // verus!
