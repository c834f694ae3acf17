//! The placeholder token scanner and the per-render error collector.  A
//! token is `{key}`: an opening brace, optional whitespace, a non-empty run
//! of key characters, optional whitespace and a closing brace; tokens are
//! found left to right, non-overlapping.

use vstd::prelude::*;
use vstd::string::StrSliceExecFns;

use crate::strutil::{is_space, is_space_char, substring_copy};

verus! {

/// A key continues until whitespace or the closing brace.
pub open spec fn is_key_char(c: char) -> bool {
    !is_space(c) && c != '}'
}

/// The first position at or after `i` that does not hold whitespace.
pub open spec fn skip_ws_from(t: Seq<char>, i: int) -> int
    decreases t.len() - i when 0 <= i <= t.len()
{
    if i < t.len() && is_space(t[i]) {
        skip_ws_from(t, i + 1)
    } else {
        i
    }
}

pub proof fn lemma_skip_ws_from(t: Seq<char>, i: int)
    requires
        0 <= i <= t.len(),
    ensures
        i <= skip_ws_from(t, i) <= t.len(),
        forall|k: int| i <= k < skip_ws_from(t, i) ==> is_space(#[trigger] t[k]),
        skip_ws_from(t, i) < t.len() ==> !is_space(t[skip_ws_from(t, i)]),
    decreases t.len() - i,
{
    if i < t.len() && is_space(t[i]) {
        lemma_skip_ws_from(t, i + 1);
    }
}

/// The first position at or after `i` that ends the key run.
pub open spec fn scan_key_end(t: Seq<char>, i: int) -> int
    decreases t.len() - i when 0 <= i <= t.len()
{
    if i < t.len() && is_key_char(t[i]) {
        scan_key_end(t, i + 1)
    } else {
        i
    }
}

pub proof fn lemma_scan_key_end(t: Seq<char>, i: int)
    requires
        0 <= i <= t.len(),
    ensures
        i <= scan_key_end(t, i) <= t.len(),
        forall|k: int| i <= k < scan_key_end(t, i) ==> is_key_char(#[trigger] t[k]),
        scan_key_end(t, i) < t.len() ==> !is_key_char(t[scan_key_end(t, i)]),
    decreases t.len() - i,
{
    if i < t.len() && is_key_char(t[i]) {
        lemma_scan_key_end(t, i + 1);
    }
}

/// The token starting exactly at position `i`, if any: the position one
/// past its closing brace, and the key between the braces with the
/// whitespace around it dropped.
pub open spec fn match_at(t: Seq<char>, i: int) -> Option<(int, Seq<char>)> {
    if 0 <= i < t.len() && t[i] == '{' {
        let j = skip_ws_from(t, i + 1);
        let k = scan_key_end(t, j);
        if k > j {
            let l = skip_ws_from(t, k);
            if l < t.len() && t[l] == '}' {
                Some((l + 1, t.subrange(j, k)))
            } else {
                None
            }
        } else {
            None
        }
    } else {
        None
    }
}

/// A found token ends after its start and within the text, and its key is
/// not empty.
pub proof fn lemma_match_at_bounds(t: Seq<char>, i: int)
    ensures
        match_at(t, i) matches Some(p) ==> i < p.0 <= t.len() && p.1.len() >= 1,
{
    if 0 <= i < t.len() && t[i] == '{' {
        lemma_skip_ws_from(t, i + 1);
        let j = skip_ws_from(t, i + 1);
        lemma_scan_key_end(t, j);
        let k = scan_key_end(t, j);
        if k > j {
            lemma_skip_ws_from(t, k);
        }
    }
}

/// Finds the token starting exactly at character `i`, as `match_at`
/// describes it.
#[verifier::loop_isolation(false)]
pub fn find_match(t: &str, i: usize) -> (r: Option<(usize, String)>)
    requires
        i <= t@.len(),
    ensures
        (r is Some <==> match_at(t@, i as int) is Some),
        r matches Some(p) ==> match_at(t@, i as int) == Some((p.0 as int, p.1@)),
{
    let n = t.unicode_len();
    if i >= n {
        return None;
    }
    if t.get_char(i) != '{' {
        return None;
    }
    proof {
        lemma_skip_ws_from(t@, i as int + 1);
    }
    let mut j = i + 1;
    while j < n && is_space_char(t.get_char(j))
        invariant
            i + 1 <= j <= n,
            forall|k: int| i + 1 <= k < j ==> is_space(#[trigger] t@[k]),
        decreases n - j,
    {
        j = j + 1;
    }
    proof {
        assert(j == skip_ws_from(t@, i as int + 1));
        lemma_scan_key_end(t@, j as int);
    }
    let mut k = j;
    while k < n && !is_space_char(t.get_char(k)) && t.get_char(k) != '}'
        invariant
            j <= k <= n,
            forall|q: int| j <= q < k ==> is_key_char(#[trigger] t@[q]),
        decreases n - k,
    {
        k = k + 1;
    }
    proof {
        assert(k == scan_key_end(t@, j as int));
    }
    if k == j {
        return None;
    }
    proof {
        lemma_skip_ws_from(t@, k as int);
    }
    let mut l = k;
    while l < n && is_space_char(t.get_char(l))
        invariant
            k <= l <= n,
            forall|q: int| k <= q < l ==> is_space(#[trigger] t@[q]),
        decreases n - l,
    {
        l = l + 1;
    }
    proof {
        assert(l == skip_ws_from(t@, k as int));
    }
    if l < n && t.get_char(l) == '}' {
        let key = substring_copy(t, j, k);
        Some((l + 1, key))
    } else {
        None
    }
}

/// Whether an error was already recorded under this key.
pub open spec fn contains_error_key(es: Seq<(Seq<char>, Seq<char>)>, key: Seq<char>) -> bool {
    exists|i: int| 0 <= i < es.len() && (#[trigger] es[i]).0 == key
}

/// Collects, per placeholder key, the first error text observed for it
/// during one render.
pub struct PlaceHolderReplacer {
    errors: Vec<(String, String)>,
}

impl View for PlaceHolderReplacer {
    type V = Seq<(Seq<char>, Seq<char>)>;

    closed spec fn view(&self) -> Seq<(Seq<char>, Seq<char>)> {
        self.errors@.map_values(|p: (String, String)| (p.0@, p.1@))
    }
}

impl PlaceHolderReplacer {
    pub fn new() -> (r: Self)
        ensures
            r@ == Seq::<(Seq<char>, Seq<char>)>::empty(),
    {
        let r = Self { errors: Vec::new() };
        proof {
            assert(r@ =~= Seq::<(Seq<char>, Seq<char>)>::empty());
        }
        r
    }

    #[verifier::loop_isolation(false)]
    pub fn contains_key(&self, key: &str) -> (r: bool)
        ensures
            r == contains_error_key(self@, key@),
    {
        let mut i: usize = 0;
        while i < self.errors.len()
            invariant
                i <= self.errors.len(),
                forall|j: int| 0 <= j < i ==> (#[trigger] self@[j]).0 != key@,
            decreases self.errors.len() - i,
        {
            proof {
                assert(self@[i as int].0 == self.errors@[i as int].0@);
            }
            if crate::strutil::str_eq(self.errors[i].0.as_str(), key) {
                return true;
            }
            i = i + 1;
        }
        false
    }

    /// Records an error under a key; callers record each key at most once.
    pub fn record(&mut self, key: &str, message: String)
        ensures
            final(self)@ == old(self)@.push((key@, message@)),
    {
        let owned_key = crate::strutil::substring_copy(key, 0, key.unicode_len());
        proof {
            assert(key@.subrange(0, key@.len() as int) =~= key@);
        }
        self.errors.push((owned_key, message));
        proof {
            assert(self@ =~= old(self)@.push((key@, message@)));
        }
    }

    /// Hands out the collected errors.
    pub fn into_errors(self) -> (r: Vec<(String, String)>)
        ensures
            r@.map_values(|p: (String, String)| (p.0@, p.1@)) == self@,
    {
        self.errors
    }
}

} // verus!
