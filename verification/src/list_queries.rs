//! Listing journals: parse the directory's file names into codec values,
//! narrow them with a filter, order them newest-first and render the date
//! tuples shown to the user.

use vstd::prelude::*;
use vstd::multiset::Multiset;
use vstd::seq_lib::*;

use crate::daily_names::{DailyName, DailyView};
use crate::date_filtering::{
    daily_matches_ymd, filter_dailies_by_ymd, filter_monthly_by_ym, monthly_matches_ym,
};
use crate::dates_names::{DateNameForFile, ToDateTuple};
use crate::find_by::{FindByMonthInYear, FindByYearMonthDay};
use crate::monthly_name::{MonthlyName, MonthlyView};
use crate::yearly_name::YearlyName;

verus! {

/// The views of the entries whose names parse; unparseable names are
/// dropped, the rest keep their order.
pub open spec fn parsed_views<T: DateNameForFile>(names: Seq<Seq<char>>) -> Seq<T::V> {
    names.filter_map(|s: Seq<char>| T::parse_spec(s))
}

/// Descending stable insertion: the new entry goes in front of the first
/// strictly older entry, behind every equal or newer one.
pub open spec fn insert_desc_views<T: DateNameForFile>(s: Seq<T::V>, x: T::V) -> Seq<T::V>
    decreases s.len(),
{
    if s.len() == 0 {
        seq![x]
    } else if T::date_key_of(x) > T::date_key_of(s[0]) {
        seq![x] + s
    } else {
        seq![s[0]] + insert_desc_views::<T>(s.drop_first(), x)
    }
}

/// Descending stable insertion sort by date key: newest first, entries with
/// equal keys in their original order.
pub open spec fn sort_desc_views<T: DateNameForFile>(s: Seq<T::V>) -> Seq<T::V>
    decreases s.len(),
{
    if s.len() == 0 {
        Seq::empty()
    } else {
        insert_desc_views::<T>(sort_desc_views::<T>(s.drop_last()), s.last())
    }
}

/// The date tuples of a sequence of entries.
pub open spec fn tuples_of_views<T: DateNameForFile>(s: Seq<T::V>) -> Seq<Seq<char>> {
    s.map_values(|v: T::V| T::date_tuple_of(v))
}

/// Keeps the entries whose file names parse as `T`, dropping the rest.
#[verifier::loop_isolation(false)]
pub fn fetch_valid_date_entries<T: DateNameForFile>(file_names: &Vec<String>) -> (r: Vec<T>)
    ensures
        r@.map_values(|t: T| t@) == parsed_views::<T>(file_names.deep_view()),
        forall|i: int| 0 <= i < r@.len() ==> T::inv_of(#[trigger] r@[i]@),
{
    let ghost f = |s: Seq<char>| T::parse_spec(s);
    let mut out: Vec<T> = Vec::new();
    let mut i: usize = 0;
    proof {
        assert(file_names.deep_view().take(0).filter_map(f) =~= Seq::<T::V>::empty());
    }
    while i < file_names.len()
        invariant
            i <= file_names.len(),
            out@.map_values(|t: T| t@) == file_names.deep_view().take(i as int).filter_map(f),
            forall|j: int| 0 <= j < out@.len() ==> T::inv_of(#[trigger] out@[j]@),
        decreases file_names.len() - i,
    {
        proof {
            file_names.deep_view().lemma_filter_map_take_succ(f, i as int);
            assert(file_names.deep_view()[i as int] == file_names[i as int]@);
        }
        let ghost out_pre = out@;
        match T::parse_name(file_names[i].as_str()) {
            Some(v) => {
                out.push(v);
                proof {
                    assert(out@.map_values(|t: T| t@) =~= out_pre.map_values(|t: T| t@).push(
                        out@.last()@,
                    ));
                }
            },
            None => (),
        }
        proof {
            assert(out@.map_values(|t: T| t@) =~= file_names.deep_view().take(
                i + 1 as int,
            ).filter_map(f));
        }
        i = i + 1;
    }
    proof {
        assert(file_names.deep_view().take(file_names.len() as int) =~= file_names.deep_view());
    }
    out
}

/// Inserting before the first strictly older entry realises the descending
/// stable insertion.
proof fn lemma_insert_desc_at<T: DateNameForFile>(s: Seq<T::V>, x: T::V, j: int)
    requires
        0 <= j <= s.len(),
        forall|k: int| 0 <= k < j ==> !(T::date_key_of(x) > T::date_key_of(#[trigger] s[k])),
        j == s.len() || T::date_key_of(x) > T::date_key_of(s[j]),
    ensures
        insert_desc_views::<T>(s, x) == s.take(j) + seq![x] + s.skip(j),
    decreases j,
{
    if j == 0 {
        if s.len() == 0 {
            assert(insert_desc_views::<T>(s, x) =~= s.take(0) + seq![x] + s.skip(0));
        } else {
            assert(T::date_key_of(x) > T::date_key_of(s[0]));
            assert(insert_desc_views::<T>(s, x) =~= s.take(0) + seq![x] + s.skip(0));
        }
    } else {
        assert(!(T::date_key_of(x) > T::date_key_of(s[0])));
        let d = s.drop_first();
        lemma_insert_desc_at::<T>(d, x, j - 1);
        assert(insert_desc_views::<T>(s, x) == seq![s[0]] + (d.take(j - 1) + seq![x] + d.skip(j
            - 1)));
        assert(seq![s[0]] + (d.take(j - 1) + seq![x] + d.skip(j - 1)) =~= s.take(j) + seq![x]
            + s.skip(j));
    }
}

/// Inserts one entry into an already sorted vector, newest first, behind
/// every entry with an equal or newer key.
#[verifier::loop_isolation(false)]
fn insert_sorted<T: DateNameForFile>(out: &mut Vec<T>, x: T)
    ensures
        final(out)@.map_values(|t: T| t@) == insert_desc_views::<T>(
            old(out)@.map_values(|t: T| t@),
            x@,
        ),
{
    let ghost mapped = out@.map_values(|t: T| t@);
    let key = x.date_key();
    let mut j: usize = 0;
    while j < out.len() && !(key > out[j].date_key())
        invariant
            j <= out@.len(),
            key == T::date_key_of(x@),
            out@ == old(out)@,
            forall|k: int|
                0 <= k < j ==> !(T::date_key_of(x@) > T::date_key_of(#[trigger] mapped[k])),
        decreases out@.len() - j,
    {
        proof {
            assert(mapped[j as int] == out@[j as int]@);
        }
        j = j + 1;
    }
    proof {
        lemma_insert_desc_at::<T>(mapped, x@, j as int);
    }
    out.insert(j, x);
    proof {
        assert(out@.map_values(|t: T| t@) =~= mapped.take(j as int) + seq![x@] + mapped.skip(
            j as int,
        ));
    }
}

/// Sorts the entries newest-first by their date key (stable for equal keys)
/// and renders each as its date tuple, so the most recent entry comes first.
#[verifier::loop_isolation(false)]
pub fn sort_and_to_string<T: DateNameForFile>(seq: Vec<T>) -> (r: Vec<String>)
    ensures
        r.deep_view() == tuples_of_views::<T>(
            sort_desc_views::<T>(seq@.map_values(|t: T| t@)),
        ),
{
    let ghost mapped = seq@.map_values(|t: T| t@);
    let mut input = seq;
    let mut sorted: Vec<T> = Vec::new();
    proof {
        assert(sort_desc_views::<T>(mapped.take(0)) =~= Seq::<T::V>::empty());
    }
    while input.len() > 0
        invariant
            input@.len() <= mapped.len(),
            forall|j: int|
                0 <= j < input@.len() ==> (#[trigger] input@[j])@ == mapped[mapped.len()
                    - input@.len() + j],
            sorted@.map_values(|t: T| t@) == sort_desc_views::<T>(
                mapped.take(mapped.len() - input@.len() as int),
            ),
        decreases input.len(),
    {
        let ghost pre = input@;
        let ghost k = mapped.len() - pre.len() as int;
        let x = input.remove(0);
        proof {
            assert(x@ == mapped[k]);
            assert(pre.remove(0) =~= pre.skip(1));
            assert(forall|j: int|
                0 <= j < input@.len() ==> (#[trigger] input@[j])@ == mapped[k + 1 + j]);
            assert(mapped.take(k + 1).drop_last() =~= mapped.take(k));
            assert(mapped.take(k + 1).last() == mapped[k]);
        }
        insert_sorted(&mut sorted, x);
        proof {
            assert(sorted@.map_values(|t: T| t@) == sort_desc_views::<T>(mapped.take(k + 1)));
        }
    }
    proof {
        assert(mapped.take(mapped.len() as int) =~= mapped);
    }
    let ghost sorted_views = sorted@.map_values(|t: T| t@);
    let mut r: Vec<String> = Vec::new();
    let mut i: usize = 0;
    proof {
        assert(r.deep_view() =~= tuples_of_views::<T>(sorted_views).take(0));
    }
    while i < sorted.len()
        invariant
            i <= sorted@.len(),
            sorted@.map_values(|t: T| t@) == sorted_views,
            r.deep_view() == tuples_of_views::<T>(sorted_views).take(i as int),
        decreases sorted@.len() - i,
    {
        let ghost r_pre = r.deep_view();
        let tuple = sorted[i].to_date_tuple();
        proof {
            assert(sorted_views[i as int] == sorted@[i as int]@);
            assert(tuple@ == tuples_of_views::<T>(sorted_views)[i as int]);
        }
        r.push(tuple);
        proof {
            assert(r.deep_view() =~= r_pre.push(tuple@));
            assert(r.deep_view() =~= tuples_of_views::<T>(sorted_views).take(i + 1 as int));
        }
        i = i + 1;
    }
    proof {
        assert(tuples_of_views::<T>(sorted_views).take(sorted_views.len() as int)
            =~= tuples_of_views::<T>(sorted_views));
    }
    r
}

/// What listing dailies yields: parse, narrow by the filter, newest first,
/// rendered as date tuples.
pub open spec fn daily_listing_spec(names: Seq<Seq<char>>, f: FindByYearMonthDay) -> Seq<
    Seq<char>,
> {
    tuples_of_views::<DailyName>(
        sort_desc_views::<DailyName>(
            parsed_views::<DailyName>(names).filter(|v: DailyView| daily_matches_ymd(v, f)),
        ),
    )
}

/// Lists the daily journals among the given file names that match the
/// filter, newest first, as date tuples.
pub fn fetch_all_daily_names(file_names: &Vec<String>, ymd_listing: &FindByYearMonthDay) -> (r:
    Vec<String>)
    ensures
        r.deep_view() == daily_listing_spec(file_names.deep_view(), *ymd_listing),
{
    let with_valid_format: Vec<DailyName> = fetch_valid_date_entries(file_names);
    let filtered_by_ymd = filter_dailies_by_ymd(with_valid_format, ymd_listing);
    sort_and_to_string(filtered_by_ymd)
}

/// What listing monthlies yields.
pub open spec fn monthly_listing_spec(names: Seq<Seq<char>>, f: FindByMonthInYear) -> Seq<
    Seq<char>,
> {
    tuples_of_views::<MonthlyName>(
        sort_desc_views::<MonthlyName>(
            parsed_views::<MonthlyName>(names).filter(|v: MonthlyView| monthly_matches_ym(v, f)),
        ),
    )
}

/// Lists the monthly journals among the given file names that match the
/// filter, newest first, as date tuples.
pub fn fetch_all_monthly_names(file_names: &Vec<String>, month_in_year: &FindByMonthInYear) -> (r:
    Vec<String>)
    ensures
        r.deep_view() == monthly_listing_spec(file_names.deep_view(), *month_in_year),
{
    let with_valid_format: Vec<MonthlyName> = fetch_valid_date_entries(file_names);
    let filtered_monthlies = filter_monthly_by_ym(with_valid_format, month_in_year);
    sort_and_to_string(filtered_monthlies)
}

/// What listing yearlies yields: every parseable name, newest first.
pub open spec fn yearly_listing_spec(names: Seq<Seq<char>>) -> Seq<Seq<char>> {
    tuples_of_views::<YearlyName>(sort_desc_views::<YearlyName>(parsed_views::<YearlyName>(names)))
}

/// Lists all yearly journals among the given file names, newest first, as
/// date tuples.
pub fn fetch_yearly_names(file_names: &Vec<String>) -> (r: Vec<String>)
    ensures
        r.deep_view() == yearly_listing_spec(file_names.deep_view()),
{
    let with_valid_format: Vec<YearlyName> = fetch_valid_date_entries(file_names);
    sort_and_to_string(with_valid_format)
}


/// Descending order by date key: no entry is older than one after it.
pub open spec fn sorted_desc<T: DateNameForFile>(s: Seq<T::V>) -> bool {
    forall|i: int, j: int|
        0 <= i <= j < s.len() ==> T::date_key_of(#[trigger] s[i]) >= T::date_key_of(#[trigger] s[j])
}

proof fn lemma_insert_desc_bound<T: DateNameForFile>(s: Seq<T::V>, x: T::V, b: u64)
    requires
        forall|k: int| 0 <= k < s.len() ==> T::date_key_of(#[trigger] s[k]) <= b,
        T::date_key_of(x) <= b,
    ensures
        forall|k: int|
            0 <= k < insert_desc_views::<T>(s, x).len() ==> T::date_key_of(
                #[trigger] insert_desc_views::<T>(s, x)[k],
            ) <= b,
    decreases s.len(),
{
    let r = insert_desc_views::<T>(s, x);
    if s.len() == 0 {
        assert(r == seq![x]);
        assert(r[0] == x);
    } else if T::date_key_of(x) > T::date_key_of(s[0]) {
        assert(r == seq![x] + s);
        assert forall|k: int| 0 <= k < r.len() implies T::date_key_of(#[trigger] r[k]) <= b by {
            if k == 0 {
                assert(r[0] == x);
            } else {
                assert(r[k] == s[k - 1]);
            }
        }
    } else {
        let d = s.drop_first();
        assert(forall|k: int| 0 <= k < d.len() ==> #[trigger] d[k] == s[k + 1]);
        lemma_insert_desc_bound::<T>(d, x, b);
        let ri = insert_desc_views::<T>(d, x);
        assert(r == seq![s[0]] + ri);
        assert forall|k: int| 0 <= k < r.len() implies T::date_key_of(#[trigger] r[k]) <= b by {
            if k == 0 {
                assert(r[0] == s[0]);
            } else {
                assert(r[k] == ri[k - 1]);
            }
        }
    }
}

proof fn lemma_insert_desc_stays_sorted<T: DateNameForFile>(s: Seq<T::V>, x: T::V)
    requires
        sorted_desc::<T>(s),
    ensures
        sorted_desc::<T>(insert_desc_views::<T>(s, x)),
    decreases s.len(),
{
    let r = insert_desc_views::<T>(s, x);
    if s.len() == 0 {
    } else if T::date_key_of(x) > T::date_key_of(s[0]) {
        assert(forall|j: int| 0 <= j < s.len() ==> T::date_key_of(#[trigger] s[j]) <= T::date_key_of(
            s[0],
        ));
        assert(r == seq![x] + s);
        assert forall|i: int, j: int| 0 <= i <= j < r.len() implies T::date_key_of(#[trigger] r[i])
            >= T::date_key_of(#[trigger] r[j]) by {
            if i == 0 && j > 0 {
                assert(r[j] == s[j - 1]);
            }
        }
    } else {
        let d = s.drop_first();
        assert(sorted_desc::<T>(d)) by {
            assert(forall|i: int, j: int|
                0 <= i <= j < d.len() ==> #[trigger] d[i] == s[i + 1] && #[trigger] d[j] == s[j
                    + 1]);
        }
        lemma_insert_desc_stays_sorted::<T>(d, x);
        lemma_insert_desc_bound::<T>(d, x, T::date_key_of(s[0]));
        let ri = insert_desc_views::<T>(d, x);
        assert(r == seq![s[0]] + ri);
        assert forall|i: int, j: int| 0 <= i <= j < r.len() implies T::date_key_of(#[trigger] r[i])
            >= T::date_key_of(#[trigger] r[j]) by {
            if i == 0 && j > 0 {
                assert(r[j] == ri[j - 1]);
            } else if i > 0 {
                assert(r[i] == ri[i - 1]);
                assert(r[j] == ri[j - 1]);
            }
        }
    }
}

/// Listings come out ordered: the sort yields a sequence that is descending
/// in the date key, so the most recent entry stands first.
pub proof fn lemma_sort_desc_views_sorted<T: DateNameForFile>(s: Seq<T::V>)
    ensures
        sorted_desc::<T>(sort_desc_views::<T>(s)),
    decreases s.len(),
{
    if s.len() != 0 {
        lemma_sort_desc_views_sorted::<T>(s.drop_last());
        lemma_insert_desc_stays_sorted::<T>(sort_desc_views::<T>(s.drop_last()), s.last());
    }
}


proof fn lemma_insert_desc_multiset<T: DateNameForFile>(s: Seq<T::V>, x: T::V)
    ensures
        insert_desc_views::<T>(s, x).to_multiset() == s.to_multiset().insert(x),
    decreases s.len(),
{
    broadcast use vstd::seq_lib::group_to_multiset_ensures;

    let r = insert_desc_views::<T>(s, x);
    if s.len() == 0 {
        assert(r == seq![x]);
        assert(Seq::<T::V>::empty().push(x) =~= seq![x]);
        assert(Seq::<T::V>::empty().to_multiset() =~= Multiset::<T::V>::empty());
        assert(r.to_multiset() =~= s.to_multiset().insert(x));
    } else if T::date_key_of(x) > T::date_key_of(s[0]) {
        assert(r == seq![x] + s);
        assert(r.remove(0) =~= s);
        assert(r.to_multiset().remove(x) =~= s.to_multiset());
        assert(r[0] == x);
        assert(r.contains(x));
        assert(r.to_multiset().count(x) > 0);
        assert(r.to_multiset() =~= s.to_multiset().insert(x));
    } else {
        let d = s.drop_first();
        lemma_insert_desc_multiset::<T>(d, x);
        let ri = insert_desc_views::<T>(d, x);
        assert(r == seq![s[0]] + ri);
        assert(r.remove(0) =~= ri);
        assert(r.to_multiset().remove(s[0]) =~= ri.to_multiset());
        assert(r[0] == s[0]);
        assert(r.contains(s[0]));
        assert(r.to_multiset().count(s[0]) > 0);
        assert(r.to_multiset() =~= ri.to_multiset().insert(s[0]));
        assert(s.remove(0) =~= d);
        assert(s.to_multiset().remove(s[0]) =~= d.to_multiset());
        assert(s.contains(s[0]));
        assert(s.to_multiset().count(s[0]) > 0);
        assert(s.to_multiset() =~= d.to_multiset().insert(s[0]));
        assert(d.to_multiset().insert(x).insert(s[0]) =~= d.to_multiset().insert(s[0]).insert(x));
    }
}

/// Listings lose and invent nothing: the sort's result holds exactly the
/// entries it was given.
pub proof fn lemma_sort_desc_views_permutes<T: DateNameForFile>(s: Seq<T::V>)
    ensures
        sort_desc_views::<T>(s).to_multiset() == s.to_multiset(),
    decreases s.len(),
{
    broadcast use vstd::seq_lib::group_to_multiset_ensures;

    if s.len() != 0 {
        let d = s.drop_last();
        lemma_sort_desc_views_permutes::<T>(d);
        lemma_insert_desc_multiset::<T>(sort_desc_views::<T>(d), s.last());
        assert(d.push(s.last()) =~= s);
        assert(s.to_multiset() =~= d.to_multiset().insert(s.last()));
    }
}

} // verus!
