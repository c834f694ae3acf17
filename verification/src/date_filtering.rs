//! Narrowing collections of journal names: extracting file names from paths
//! and keeping the entries that match every given field of a filter query.

use vstd::prelude::*;
use vstd::seq_lib::*;

use crate::daily_names::{DailyName, DailyView};
use crate::dates_names::{HasMonth, HasYear};
use crate::find_by::{FindByMonthInYear, FindByYearMonthDay};
use crate::monthly_name::{MonthlyName, MonthlyView};

verus! {

/// The file-name component of a path, if it has one.
pub uninterp spec fn file_name_of(path: Seq<char>) -> Option<Seq<char>>;

/// Relies on std's `Path::file_name`: the final component of the path,
/// absent when the path ends in `..`, is a root, or is empty; a function of
/// the path text alone.
#[verifier::external_body]
fn path_file_name(path: &str) -> (r: Option<String>)
    ensures
        (r is Some <==> file_name_of(path@) is Some),
        r matches Some(n) ==> file_name_of(path@) == Some(n@),
{
    let name = std::path::Path::new(path).file_name()?;
    Some(name.to_str()?.to_owned())
}

/// Keeps the file-name component of every path that has one; paths without
/// one are dropped from the listing.
#[verifier::loop_isolation(false)]
pub fn strip_expect_file_name(paths: &Vec<String>) -> (r: Vec<String>)
    ensures
        r.deep_view() == paths.deep_view().filter_map(|p: Seq<char>| file_name_of(p)),
{
    let ghost f = |p: Seq<char>| file_name_of(p);
    let mut out: Vec<String> = Vec::new();
    let mut i: usize = 0;
    while i < paths.len()
        invariant
            i <= paths.len(),
            out.deep_view() == paths.deep_view().take(i as int).filter_map(f),
        decreases paths.len() - i,
    {
        proof {
            paths.deep_view().lemma_filter_map_take_succ(f, i as int);
            assert(paths.deep_view()[i as int] == paths[i as int]@);
        }
        let ghost out_pre = out.deep_view();
        match path_file_name(paths[i].as_str()) {
            Some(name) => {
                out.push(name);
                proof {
                    assert(out.deep_view() =~= out_pre.push(name@));
                }
            },
            None => (),
        }
        proof {
            assert(out.deep_view() =~= paths.deep_view().take(i + 1 as int).filter_map(f));
        }
        i = i + 1;
    }
    proof {
        assert(paths.deep_view().take(paths.len() as int) =~= paths.deep_view());
    }
    out
}


/// Filtering one more element appends it exactly when it matches.
proof fn lemma_filter_take_succ<A>(s: Seq<A>, pred: spec_fn(A) -> bool, i: int)
    requires
        0 <= i < s.len(),
    ensures
        s.take(i + 1).filter(pred) == (if pred(s[i]) {
            s.take(i).filter(pred).push(s[i])
        } else {
            s.take(i).filter(pred)
        }),
{
    reveal(Seq::filter);
    assert(s.take(i + 1).drop_last() =~= s.take(i));
    assert(s.take(i + 1).last() == s[i]);
}

/// Whether a daily entry matches every given field of the filter.
pub open spec fn daily_matches_ymd(v: DailyView, f: FindByYearMonthDay) -> bool {
    &&& (f.year_opt() matches Some(y) ==> v.year == y.val())
    &&& (f.month_opt() matches Some(m) ==> v.month == m.val())
    &&& (f.day_opt() matches Some(d) ==> v.day == d.val())
}

fn daily_matches(d: &DailyName, f: &FindByYearMonthDay) -> (r: bool)
    ensures
        r == daily_matches_ymd(d@, *f),
{
    if let Some(y) = f.year() {
        if !d.is_in_year(y.get()) {
            return false;
        }
    }
    if let Some(m) = f.month() {
        if !d.is_in_month(m.get()) {
            return false;
        }
    }
    if let Some(dd) = f.day() {
        if !d.is_in_day(dd.get()) {
            return false;
        }
    }
    true
}

/// Keeps the dailies that match every given field of the filter, in their
/// original order.
#[verifier::loop_isolation(false)]
pub fn filter_dailies_by_ymd(to_filter: Vec<DailyName>, ymd_listing: &FindByYearMonthDay) -> (r:
    Vec<DailyName>)
    ensures
        r@.map_values(|dn: DailyName| dn@) == to_filter@.map_values(|dn: DailyName| dn@).filter(
            |v: DailyView| daily_matches_ymd(v, *ymd_listing),
        ),
{
    let ghost mapped = to_filter@.map_values(|dn: DailyName| dn@);
    let ghost pred = |v: DailyView| daily_matches_ymd(v, *ymd_listing);
    proof {
        reveal(Seq::filter);
        assert(mapped.take(0).filter(pred) =~= Seq::<DailyView>::empty());
    }
    let mut input = to_filter;
    let mut out: Vec<DailyName> = Vec::new();
    while input.len() > 0
        invariant
            input@.len() <= mapped.len(),
            forall|j: int|
                0 <= j < input@.len() ==> (#[trigger] input@[j])@ == mapped[mapped.len()
                    - input@.len() + j],
            out@.map_values(|dn: DailyName| dn@) == mapped.take(
                mapped.len() - input@.len() as int,
            ).filter(pred),
        decreases input.len(),
    {
        let ghost pre = input@;
        let ghost k = mapped.len() - pre.len() as int;
        let ghost out_pre = out@;
        let x = input.remove(0);
        proof {
            assert(x@ == mapped[k]);
            assert(pre.remove(0) =~= pre.skip(1));
            assert(forall|j: int|
                0 <= j < input@.len() ==> (#[trigger] input@[j])@ == mapped[k + 1 + j]);
            lemma_filter_take_succ(mapped, pred, k);
        }
        if daily_matches(&x, ymd_listing) {
            proof {
                assert(pred(x@));
            }
            out.push(x);
            proof {
                assert(out@.map_values(|dn: DailyName| dn@) =~= out_pre.map_values(
                    |dn: DailyName| dn@,
                ).push(x@));
                assert(out@.map_values(|dn: DailyName| dn@) == mapped.take(k + 1).filter(
                    pred,
                ));
            }
        } else {
            proof {
                assert(!pred(x@));
                assert(out@.map_values(|dn: DailyName| dn@) == mapped.take(k + 1).filter(
                    pred,
                ));
            }
        }
    }
    proof {
        assert(mapped.take(mapped.len() as int) =~= mapped);
    }
    out
}

/// Whether a monthly entry matches the month-in-year filter.
pub open spec fn monthly_matches_ym(v: MonthlyView, f: FindByMonthInYear) -> bool {
    match f {
        FindByMonthInYear::All => true,
        FindByMonthInYear::InCurrentYear(y) => v.year == y.val(),
        FindByMonthInYear::MonthYear { month, year } => v.month == month.val() && v.year
            == year.val(),
    }
}

fn monthly_matches(m: &MonthlyName, f: &FindByMonthInYear) -> (r: bool)
    ensures
        r == monthly_matches_ym(m@, *f),
{
    match f {
        FindByMonthInYear::All => true,
        FindByMonthInYear::InCurrentYear(y) => m.is_in_year(y.get()),
        FindByMonthInYear::MonthYear { month, year } => m.is_in_month(month.get()) && m.is_in_year(
            year.get(),
        ),
    }
}

/// Keeps the monthlies that match the filter, in their original order.
#[verifier::loop_isolation(false)]
pub fn filter_monthly_by_ym(to_filter: Vec<MonthlyName>, ym_find_by: &FindByMonthInYear) -> (r:
    Vec<MonthlyName>)
    ensures
        r@.map_values(|mn: MonthlyName| mn@) == to_filter@.map_values(
            |mn: MonthlyName| mn@,
        ).filter(|v: MonthlyView| monthly_matches_ym(v, *ym_find_by)),
{
    let ghost mapped = to_filter@.map_values(|mn: MonthlyName| mn@);
    let ghost pred = |v: MonthlyView| monthly_matches_ym(v, *ym_find_by);
    proof {
        reveal(Seq::filter);
        assert(mapped.take(0).filter(pred) =~= Seq::<MonthlyView>::empty());
    }
    let mut input = to_filter;
    let mut out: Vec<MonthlyName> = Vec::new();
    while input.len() > 0
        invariant
            input@.len() <= mapped.len(),
            forall|j: int|
                0 <= j < input@.len() ==> (#[trigger] input@[j])@ == mapped[mapped.len()
                    - input@.len() + j],
            out@.map_values(|mn: MonthlyName| mn@) == mapped.take(
                mapped.len() - input@.len() as int,
            ).filter(pred),
        decreases input.len(),
    {
        let ghost pre = input@;
        let ghost k = mapped.len() - pre.len() as int;
        let ghost out_pre = out@;
        let x = input.remove(0);
        proof {
            assert(x@ == mapped[k]);
            assert(pre.remove(0) =~= pre.skip(1));
            assert(forall|j: int|
                0 <= j < input@.len() ==> (#[trigger] input@[j])@ == mapped[k + 1 + j]);
            lemma_filter_take_succ(mapped, pred, k);
        }
        if monthly_matches(&x, ym_find_by) {
            proof {
                assert(pred(x@));
            }
            out.push(x);
            proof {
                assert(out@.map_values(|mn: MonthlyName| mn@) =~= out_pre.map_values(
                    |mn: MonthlyName| mn@,
                ).push(x@));
                assert(out@.map_values(|mn: MonthlyName| mn@) == mapped.take(k + 1).filter(
                    pred,
                ));
            }
        } else {
            proof {
                assert(!pred(x@));
                assert(out@.map_values(|mn: MonthlyName| mn@) == mapped.take(k + 1).filter(
                    pred,
                ));
            }
        }
    }
    proof {
        assert(mapped.take(mapped.len() as int) =~= mapped);
    }
    out
}

/// Filtering by a query with no given fields returns the input unchanged,
/// order included.
pub proof fn lemma_filter_all_none_identity(vs: Seq<DailyView>, f: FindByYearMonthDay)
    requires
        f.year_opt() is None,
        f.month_opt() is None,
        f.day_opt() is None,
    ensures
        vs.filter(|v: DailyView| daily_matches_ymd(v, f)) == vs,
    decreases vs.len(),
{
    reveal(Seq::filter);
    let pred = |v: DailyView| daily_matches_ymd(v, f);
    if vs.len() > 0 {
        lemma_filter_all_none_identity(vs.drop_last(), f);
        assert(pred(vs.last()));
        assert(vs.filter(pred) =~= vs);
    } else {
        assert(vs.filter(pred) =~= vs);
    }
}



} // verus!
