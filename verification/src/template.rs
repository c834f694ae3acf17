//! The placeholder template engine: a single pass over the template text
//! replaces each `{key}` token from the placeholder map, running a
//! placeholder's command at most once and collecting, per key, the first
//! error it reported — errors never abort the render.

use vstd::prelude::*;
use vstd::string::StrSliceExecFns;
use vstd::string::StringExecFns;

use crate::command_processor::{CommandProcessor, CommandToExecute, CommandView};
use crate::errors::{AppError, AppResult};
use crate::place_holder_replacer::{
    contains_error_key, find_match, lemma_match_at_bounds, match_at, PlaceHolderReplacer,
};
use crate::strutil::substring_copy;

verus! {

/// The mathematical content of a placeholder's value.
pub enum PlaceholderValueView {
    Direct(Seq<char>),
    Command(CommandView),
}

/// A placeholder's replacement: literal text inserted as it stands, or a
/// command whose captured output is inserted.
#[derive(Debug)]
pub enum PlaceholderTemplate {
    DirectValue(String),
    Commmand(CommandToExecute),
}

impl View for PlaceholderTemplate {
    type V = PlaceholderValueView;

    open spec fn view(&self) -> PlaceholderValueView {
        match self {
            PlaceholderTemplate::DirectValue(s) => PlaceholderValueView::Direct(s@),
            PlaceholderTemplate::Commmand(c) => PlaceholderValueView::Command(c@),
        }
    }
}

/// The mathematical content of one map entry.
pub struct EntryView {
    pub key: Seq<char>,
    pub value: PlaceholderValueView,
}

/// One placeholder bound to its key.
#[derive(Debug)]
pub struct PlaceholderEntry {
    key: String,
    value: PlaceholderTemplate,
}

impl View for PlaceholderEntry {
    type V = EntryView;

    closed spec fn view(&self) -> EntryView {
        EntryView { key: self.key@, value: self.value@ }
    }
}

/// The first entry index holding the key, looking from `i` on.
pub open spec fn find_index_from(es: Seq<EntryView>, key: Seq<char>, i: int) -> Option<int>
    decreases es.len() - i when 0 <= i <= es.len()
{
    if i >= es.len() {
        None
    } else if es[i].key == key {
        Some(i)
    } else {
        find_index_from(es, key, i + 1)
    }
}

/// What the map holds for a key: the value of its first entry with it.
pub open spec fn lookup(es: Seq<EntryView>, key: Seq<char>) -> Option<PlaceholderValueView> {
    match find_index_from(es, key, 0) {
        Some(i) => Some(es[i].value),
        None => None,
    }
}

/// A scan that found no hit up to `j` pins the search's result down.
proof fn lemma_find_index_from_first(es: Seq<EntryView>, key: Seq<char>, i: int, j: int)
    requires
        0 <= i <= j <= es.len(),
        forall|q: int| i <= q < j ==> (#[trigger] es[q]).key != key,
        j == es.len() || es[j].key == key,
    ensures
        find_index_from(es, key, i) == (if j == es.len() {
            None::<int>
        } else {
            Some(j)
        }),
    decreases j - i,
{
    if i < j {
        lemma_find_index_from_first(es, key, i + 1, j);
    }
}

/// A found index holds the searched key.
proof fn lemma_find_index_key(es: Seq<EntryView>, key: Seq<char>, i: int)
    requires
        0 <= i <= es.len(),
    ensures
        find_index_from(es, key, i) matches Some(w) ==> i <= w < es.len() && es[w].key == key,
    decreases es.len() - i,
{
    if i < es.len() && es[i].key != key {
        lemma_find_index_key(es, key, i + 1);
    }
}

/// The placeholder map for one render: keys to placeholder values, looked
/// up by their first occurrence.
pub struct PlaceholderMap {
    entries: Vec<PlaceholderEntry>,
}

impl View for PlaceholderMap {
    type V = Seq<EntryView>;

    closed spec fn view(&self) -> Seq<EntryView> {
        self.entries@.map_values(|e: PlaceholderEntry| e@)
    }
}

impl PlaceholderMap {
    pub fn new() -> (r: Self)
        ensures
            r@ == Seq::<EntryView>::empty(),
    {
        let r = Self { entries: Vec::new() };
        proof {
            assert(r@ =~= Seq::<EntryView>::empty());
        }
        r
    }

    pub fn len(&self) -> (r: usize)
        ensures
            r == self@.len(),
    {
        self.entries.len()
    }

    /// Binds a key: overwrites the entry looked up for it, or appends a new
    /// one, so the key now maps to the given value.
    #[verifier::loop_isolation(false)]
    pub fn insert(&mut self, key: String, value: PlaceholderTemplate)
        ensures
            final(self)@ == (match find_index_from(old(self)@, key@, 0) {
                Some(i) => old(self)@.update(i, (EntryView { key: key@, value: value@ })),
                None => old(self)@.push((EntryView { key: key@, value: value@ })),
            }),
    {
        let n = self.entries.len();
        let mut i: usize = 0;
        while i < n
            invariant
                i <= n,
                n == self@.len(),
                self@ == old(self)@,
                forall|q: int| 0 <= q < i ==> (#[trigger] self@[q]).key != key@,
            decreases n - i,
        {
            proof {
                assert(self@[i as int].key == self.entries@[i as int]@.key);
            }
            if crate::strutil::str_eq(self.entries[i].key.as_str(), key.as_str()) {
                proof {
                    lemma_find_index_from_first(self@, key@, 0, i as int);
                }
                self.entries.set(i, PlaceholderEntry { key, value });
                proof {
                    assert(self@ =~= old(self)@.update(
                        i as int,
                        (EntryView { key: key@, value: value@ }),
                    ));
                }
                return ;
            }
            i = i + 1;
        }
        proof {
            lemma_find_index_from_first(self@, key@, 0, n as int);
        }
        self.entries.push(PlaceholderEntry { key, value });
        proof {
            assert(self@ =~= old(self)@.push((EntryView { key: key@, value: value@ })));
        }
    }

    /// Looks the key up: the index of its first entry, if any.
    #[verifier::loop_isolation(false)]
    fn find(&self, key: &str) -> (r: Option<usize>)
        ensures
            (r is Some <==> find_index_from(self@, key@, 0) is Some),
            r matches Some(i) ==> find_index_from(self@, key@, 0) == Some(i as int) && i
                < self@.len() && lookup(self@, key@) == Some(self@[i as int].value) && self@[
                i as int
            ].key == key@,
    {
        let n = self.entries.len();
        let mut i: usize = 0;
        while i < n
            invariant
                i <= n,
                n == self@.len(),
                forall|q: int| 0 <= q < i ==> (#[trigger] self@[q]).key != key@,
            decreases n - i,
        {
            proof {
                assert(self@[i as int].key == self.entries@[i as int]@.key);
            }
            if crate::strutil::str_eq(self.entries[i].key.as_str(), key) {
                proof {
                    lemma_find_index_from_first(self@, key@, 0, i as int);
                }
                return Some(i);
            }
            i = i + 1;
        }
        proof {
            lemma_find_index_from_first(self@, key@, 0, n as int);
        }
        None
    }

    /// The value bound to a key, if any.
    pub fn find_value(&self, key: &str) -> (r: Option<&PlaceholderTemplate>)
        ensures
            (r is Some <==> lookup(self@, key@) is Some),
            r matches Some(v) ==> lookup(self@, key@) == Some(v@),
    {
        match self.find(key) {
            Some(i) => {
                proof {
                    assert(self@[i as int] == self.entries@[i as int]@);
                }
                Some(&self.entries[i].value)
            },
            None => None,
        }
    }

    /// Resolves the entry at `i`: a direct value is handed back as it
    /// stands; a command is run through the processor unless its output is
    /// already memoized, and the captured output is handed back.
    fn resolve_at<T: CommandProcessor>(&mut self, i: usize, processor: &T) -> (r: (
        String,
        Option<String>,
    ))
        requires
            i < old(self)@.len(),
        ensures
            final(self)@.len() == old(self)@.len(),
            forall|j: int|
                0 <= j < old(self)@.len() && j != i ==> final(self)@[j] == old(self)@[j],
            entry_evolves(old(self)@[i as int], final(self)@[i as int]),
            match old(self)@[i as int].value {
                PlaceholderValueView::Direct(v) => final(self)@ == old(self)@ && r.0@ == v && r.1
                    is None,
                PlaceholderValueView::Command(c) => final(self)@[i as int].value matches
                    PlaceholderValueView::Command(c2) && c2.output matches Some(o) && r.0@
                    == o.stdout && ((r.1 is Some <==> o.stderr is Some) && (r.1 matches Some(e)
                    ==> o.stderr == Some(e@))),
            },
    {
        let entry = &mut self.entries[i];
        proof {
            assert(old(self)@[i as int] == old(self).entries@[i as int]@);
        }
        let r = match &mut entry.value {
            PlaceholderTemplate::DirectValue(s) => (s.clone(), None),
            PlaceholderTemplate::Commmand(c) => {
                let out = c.get_std_out(processor);
                let err = c.get_std_err(processor);
                (out, err)
            },
        };
        proof {
            assert(self@ =~= old(self)@.update(i as int, self.entries@[i as int]@));
        }
        r
    }
}

/// How one render step may change an entry: its key and a direct value
/// never change; a command may only gain a memoized output.
pub open spec fn entry_evolves(pre: EntryView, post: EntryView) -> bool {
    &&& post.key == pre.key
    &&& (match pre.value {
        PlaceholderValueView::Direct(v) => post.value == PlaceholderValueView::Direct(v),
        PlaceholderValueView::Command(c) => post.value matches PlaceholderValueView::Command(c2)
            && CommandToExecute::runs_to(c, c2),
    })
}

/// How a render may change the map: entry by entry, as `entry_evolves`.
pub open spec fn map_evolves(pre: Seq<EntryView>, post: Seq<EntryView>) -> bool {
    &&& post.len() == pre.len()
    &&& (forall|i: int| 0 <= i < pre.len() ==> entry_evolves(#[trigger] pre[i], post[i]))
}

pub proof fn lemma_map_evolves_refl(es: Seq<EntryView>)
    ensures
        map_evolves(es, es),
{
    assert forall|i: int| 0 <= i < es.len() implies entry_evolves(#[trigger] es[i], es[i]) by {
        assert(es[i].key == es[i].key);
    }
}

pub proof fn lemma_map_evolves_trans(a: Seq<EntryView>, b: Seq<EntryView>, c: Seq<EntryView>)
    requires
        map_evolves(a, b),
        map_evolves(b, c),
    ensures
        map_evolves(a, c),
{
    assert forall|i: int| 0 <= i < a.len() implies entry_evolves(#[trigger] a[i], c[i]) by {
        assert(entry_evolves(a[i], b[i]));
        assert(entry_evolves(b[i], c[i]));
    }
}

/// Evolution does not move keys, so lookups find the same entry.
pub proof fn lemma_find_index_evolves(
    pre: Seq<EntryView>,
    post: Seq<EntryView>,
    key: Seq<char>,
    i: int,
)
    requires
        map_evolves(pre, post),
        0 <= i <= pre.len(),
    ensures
        find_index_from(post, key, i) == find_index_from(pre, key, i),
    decreases pre.len() - i,
{
    if i < pre.len() {
        assert(entry_evolves(pre[i], post[i]));
        lemma_find_index_evolves(pre, post, key, i + 1);
    }
}

/// What one found token contributes to the output: the looked-up direct
/// value, the looked-up command's captured standard output, or — for a key
/// the map does not hold — the full matched text, braces included.
pub open spec fn insertion_of(full: Seq<char>, key: Seq<char>, es: Seq<EntryView>) -> Seq<char> {
    match lookup(es, key) {
        None => full,
        Some(PlaceholderValueView::Direct(v)) => v,
        Some(PlaceholderValueView::Command(c)) => match c.output {
            Some(o) => o.stdout,
            None => Seq::empty(),
        },
    }
}

/// The rendered text from position `i` on: tokens are replaced as
/// `insertion_of` says, all other characters pass through unchanged.
pub open spec fn render_from(t: Seq<char>, i: int, es: Seq<EntryView>) -> Seq<char>
    decreases t.len() - i when 0 <= i via render_from_dec
{
    if !(0 <= i < t.len()) {
        Seq::empty()
    } else {
        match match_at(t, i) {
            Some(p) => insertion_of(t.subrange(i, p.0), p.1, es) + render_from(t, p.0, es),
            None => seq![t[i]] + render_from(t, i + 1, es),
        }
    }
}

#[via_fn]
proof fn render_from_dec(t: Seq<char>, i: int, es: Seq<EntryView>) {
    lemma_match_at_bounds(t, i);
}

/// The error a key's placeholder reported, if any: the captured standard
/// error of its command.
pub open spec fn error_at(es: Seq<EntryView>, key: Seq<char>) -> Option<Seq<char>> {
    match lookup(es, key) {
        Some(PlaceholderValueView::Command(c)) => match c.output {
            Some(o) => o.stderr,
            None => None,
        },
        _ => None,
    }
}

/// The errors collected from position `i` on, given the keys already
/// recorded: each erring key is recorded at its first occurrence and never
/// again — the first error wins.
pub open spec fn errors_from(t: Seq<char>, i: int, es: Seq<EntryView>, seen: Set<Seq<char>>) -> Seq<
    (Seq<char>, Seq<char>),
>
    decreases t.len() - i when 0 <= i via errors_from_dec
{
    if !(0 <= i < t.len()) {
        Seq::empty()
    } else {
        match match_at(t, i) {
            Some(p) => match error_at(es, p.1) {
                Some(e) => if !seen.contains(p.1) {
                    seq![(p.1, e)] + errors_from(t, p.0, es, seen.insert(p.1))
                } else {
                    errors_from(t, p.0, es, seen)
                },
                None => errors_from(t, p.0, es, seen),
            },
            None => errors_from(t, i + 1, es, seen),
        }
    }
}

#[via_fn]
proof fn errors_from_dec(t: Seq<char>, i: int, es: Seq<EntryView>, seen: Set<Seq<char>>) {
    lemma_match_at_bounds(t, i);
}

/// The keys of the tokens the scan finds from position `i` on.
pub open spec fn referenced_keys(t: Seq<char>, i: int) -> Set<Seq<char>>
    decreases t.len() - i when 0 <= i via referenced_keys_dec
{
    if !(0 <= i < t.len()) {
        Set::empty()
    } else {
        match match_at(t, i) {
            Some(p) => referenced_keys(t, p.0).insert(p.1),
            None => referenced_keys(t, i + 1),
        }
    }
}

#[via_fn]
proof fn referenced_keys_dec(t: Seq<char>, i: int) {
    lemma_match_at_bounds(t, i);
}

/// The outcome of one render pass: the substituted text, and per erring
/// placeholder key the error it reported.
#[derive(Debug)]
pub struct TemplateReplacement {
    replacement: String,
    errors: Vec<(String, String)>,
}

impl TemplateReplacement {
    pub closed spec fn replacement_view(self) -> Seq<char> {
        self.replacement@
    }

    pub closed spec fn errors_view(self) -> Seq<(Seq<char>, Seq<char>)> {
        self.errors@.map_values(|p: (String, String)| (p.0@, p.1@))
    }

    pub fn new(replacement: String, errors: Vec<(String, String)>) -> (r: Self)
        ensures
            r.replacement_view() == replacement@,
            r.errors_view() == errors@.map_values(|p: (String, String)| (p.0@, p.1@)),
    {
        Self { replacement, errors }
    }

    pub fn replacement(&self) -> (r: &str)
        ensures
            r@ == self.replacement_view(),
    {
        self.replacement.as_str()
    }

    pub fn errors(&self) -> (r: &Vec<(String, String)>)
        ensures
            r@.map_values(|p: (String, String)| (p.0@, p.1@)) == self.errors_view(),
    {
        &self.errors
    }
}

/// Renders the template in one pass: every `{key}` token is replaced as the
/// map says, the command of every referenced key runs at most once while
/// entries never referenced stay untouched, unknown keys pass through
/// verbatim, and each erring key is reported exactly once — the render
/// always completes and returns text.
#[verifier::loop_isolation(false)]
pub fn replace_template_placeholders<T: CommandProcessor>(
    template: &str,
    placeholders: &mut PlaceholderMap,
    processor: &T,
) -> (result: TemplateReplacement)
    ensures
        map_evolves(old(placeholders)@, final(placeholders)@),
        result.replacement_view() == render_from(template@, 0, final(placeholders)@),
        result.errors_view() == errors_from(
            template@,
            0,
            final(placeholders)@,
            Set::<Seq<char>>::empty(),
        ),
        forall|j: int|
            0 <= j < old(placeholders)@.len() && !referenced_keys(template@, 0).contains(
                (#[trigger] old(placeholders)@[j]).key,
            ) ==> final(placeholders)@[j] == old(placeholders)@[j],
        forall|k: Seq<char>|
            referenced_keys(template@, 0).contains(k) ==> (match lookup(final(placeholders)@, k) {
                Some(PlaceholderValueView::Command(c)) => c.output is Some,
                _ => true,
            }),
{
    let ghost t = template@;
    let n = template.unicode_len();
    let mut dst = String::new();
    let mut errors = PlaceHolderReplacer::new();
    let ghost mut seen: Set<Seq<char>> = Set::empty();
    let mut pos: usize = 0;
    proof {
        lemma_map_evolves_refl(placeholders@);
    }
    while pos < n
        invariant
            pos <= n,
            map_evolves(old(placeholders)@, placeholders@),
            forall|es: Seq<EntryView>|
                map_evolves(placeholders@, es) ==> render_from(t, 0, es) == dst@
                    + #[trigger] render_from(t, pos as int, es),
            forall|es: Seq<EntryView>|
                map_evolves(placeholders@, es) ==> errors_from(t, 0, es, Set::<Seq<char>>::empty())
                    == errors@ + #[trigger] errors_from(t, pos as int, es, seen),
            forall|k: Seq<char>| seen.contains(k) <==> contains_error_key(errors@, k),
            referenced_keys(t, pos as int).subset_of(referenced_keys(t, 0)),
            forall|j: int|
                0 <= j < old(placeholders)@.len() && placeholders@[j] != (#[trigger] old(
                    placeholders,
                )@[j]) ==> referenced_keys(t, 0).contains(old(placeholders)@[j].key),
            forall|k: Seq<char>|
                referenced_keys(t, 0).contains(k) && !referenced_keys(t, pos as int).contains(k)
                    ==> (match lookup(placeholders@, k) {
                    Some(PlaceholderValueView::Command(c)) => c.output is Some,
                    _ => true,
                }),
        decreases n - pos,
    {
        let ghost map_pre = placeholders@;
        let ghost dst_pre = dst@;
        let ghost errors_pre = errors@;
        let ghost seen_pre = seen;
        match find_match(template, pos) {
            None => {
                let c = template.get_char(pos);
                dst.push(c);
                proof {
                    assert forall|es: Seq<EntryView>| map_evolves(placeholders@, es) implies
                        render_from(t, 0, es) == dst@ + #[trigger] render_from(
                        t,
                        pos + 1 as int,
                        es,
                    ) by {
                        assert(render_from(t, pos as int, es) == seq![t[pos as int]] + render_from(
                            t,
                            pos + 1 as int,
                            es,
                        ));
                        assert(dst_pre + (seq![c] + render_from(t, pos + 1 as int, es)) =~= dst@
                            + render_from(t, pos + 1 as int, es));
                    }
                    assert forall|es: Seq<EntryView>| map_evolves(placeholders@, es) implies
                        errors_from(t, 0, es, Set::<Seq<char>>::empty()) == errors@
                        + #[trigger] errors_from(t, pos + 1 as int, es, seen) by {
                        assert(errors_from(t, pos as int, es, seen) == errors_from(
                            t,
                            pos + 1 as int,
                            es,
                            seen,
                        ));
                    }
                    assert(referenced_keys(t, pos as int) == referenced_keys(t, pos + 1 as int));
                }
                pos = pos + 1;
            },
            Some((end, key)) => {
                proof {
                    lemma_match_at_bounds(t, pos as int);
                }
                match placeholders.find(key.as_str()) {
                    None => {
                        let full = substring_copy(template, pos, end);
                        dst.append(full.as_str());
                        proof {
                            assert forall|es: Seq<EntryView>| map_evolves(placeholders@, es)
                                implies render_from(t, 0, es) == dst@ + #[trigger] render_from(
                                t,
                                end as int,
                                es,
                            ) by {
                                lemma_find_index_evolves(placeholders@, es, key@, 0);
                                assert(lookup(es, key@) is None);
                                assert(render_from(t, pos as int, es) == full@ + render_from(
                                    t,
                                    end as int,
                                    es,
                                ));
                                assert(dst_pre + (full@ + render_from(t, end as int, es)) =~= dst@
                                    + render_from(t, end as int, es));
                            }
                            assert forall|es: Seq<EntryView>| map_evolves(placeholders@, es)
                                implies errors_from(t, 0, es, Set::<Seq<char>>::empty()) == errors@
                                + #[trigger] errors_from(t, end as int, es, seen) by {
                                lemma_find_index_evolves(placeholders@, es, key@, 0);
                                assert(error_at(es, key@) is None);
                                assert(errors_from(t, pos as int, es, seen) == errors_from(
                                    t,
                                    end as int,
                                    es,
                                    seen,
                                ));
                            }
                            assert(referenced_keys(t, pos as int) == referenced_keys(
                                t,
                                end as int,
                            ).insert(key@));
                            assert forall|x: Seq<char>|
                                referenced_keys(t, end as int).contains(x) implies referenced_keys(
                                t,
                                0,
                            ).contains(x) by {
                                assert(referenced_keys(t, pos as int).contains(x));
                            }
                            assert forall|k2: Seq<char>|
                                referenced_keys(t, 0).contains(k2) && !referenced_keys(
                                    t,
                                    end as int,
                                ).contains(k2) implies (match lookup(placeholders@, k2) {
                                Some(PlaceholderValueView::Command(c)) => c.output is Some,
                                _ => true,
                            }) by {
                                if k2 == key@ {
                                    assert(lookup(placeholders@, key@) is None);
                                } else {
                                    assert(!referenced_keys(t, pos as int).contains(k2));
                                }
                            }
                        }
                        pos = end;
                    },
                    Some(idx) => {
                        let (out, err) = placeholders.resolve_at(idx, processor);
                        dst.append(out.as_str());
                        proof {
                            lemma_map_evolves_refl(map_pre);
                            assert(map_evolves(map_pre, placeholders@)) by {
                                assert forall|q: int| 0 <= q < map_pre.len() implies entry_evolves(
                                    #[trigger] map_pre[q],
                                    placeholders@[q],
                                ) by {
                                    if q != idx {
                                        assert(placeholders@[q] == map_pre[q]);
                                        lemma_map_evolves_refl(map_pre);
                                    }
                                }
                            }
                            assert forall|es: Seq<EntryView>| map_evolves(placeholders@, es)
                                implies render_from(t, 0, es) == dst@ + #[trigger] render_from(
                                t,
                                end as int,
                                es,
                            ) by {
                                lemma_map_evolves_trans(map_pre, placeholders@, es);
                                lemma_find_index_evolves(map_pre, es, key@, 0);
                                assert(find_index_from(es, key@, 0) == Some(idx as int));
                                assert(entry_evolves(placeholders@[idx as int], es[idx as int]));
                                assert(insertion_of(t.subrange(pos as int, end as int), key@, es)
                                    == out@);
                                assert(render_from(t, pos as int, es) == out@ + render_from(
                                    t,
                                    end as int,
                                    es,
                                ));
                                assert(dst_pre + (out@ + render_from(t, end as int, es)) =~= dst@
                                    + render_from(t, end as int, es));
                            }
                        }
                        match err {
                            Some(stderr_text) => {
                                if !errors.contains_key(key.as_str()) {
                                    let ghost e_view = stderr_text@;
                                    errors.record(key.as_str(), stderr_text);
                                    proof {
                                        seen = seen.insert(key@);
                                        assert forall|k: Seq<char>|
                                            seen.contains(k) <==> contains_error_key(
                                                errors@,
                                                k,
                                            ) by {
                                            if k == key@ {
                                                assert(errors@.last() == (key@, e_view));
                                                assert(contains_error_key(errors@, key@));
                                            } else {
                                                assert(contains_error_key(errors@, k)
                                                    <==> contains_error_key(errors_pre, k)) by {
                                                    if contains_error_key(errors_pre, k) {
                                                        let w = choose|w: int|
                                                            0 <= w < errors_pre.len() && (
                                                            #[trigger] errors_pre[w]).0 == k;
                                                        assert(errors@[w].0 == k);
                                                    } else if contains_error_key(errors@, k) {
                                                        let w = choose|w: int|
                                                            0 <= w < errors@.len() && (
                                                            #[trigger] errors@[w]).0 == k;
                                                        assert(w < errors_pre.len());
                                                        assert(errors_pre[w].0 == k);
                                                    }
                                                }
                                            }
                                        }
                                        assert forall|es: Seq<EntryView>|
                                            map_evolves(placeholders@, es) implies errors_from(
                                            t,
                                            0,
                                            es,
                                            Set::<Seq<char>>::empty(),
                                        ) == errors@ + #[trigger] errors_from(
                                            t,
                                            end as int,
                                            es,
                                            seen,
                                        ) by {
                                            lemma_map_evolves_trans(map_pre, placeholders@, es);
                                            lemma_find_index_evolves(map_pre, es, key@, 0);
                                            assert(entry_evolves(
                                                placeholders@[idx as int],
                                                es[idx as int],
                                            ));
                                            assert(error_at(es, key@) == Some(e_view));
                                            assert(!seen_pre.contains(key@));
                                            assert(seen == seen_pre.insert(key@));
                                            assert(errors_from(t, pos as int, es, seen_pre)
                                                == seq![(key@, e_view)] + errors_from(
                                                t,
                                                end as int,
                                                es,
                                                seen,
                                            ));
                                            assert(errors_pre + (seq![(key@, e_view)]
                                                + errors_from(t, end as int, es, seen)) =~= errors@
                                                + errors_from(t, end as int, es, seen));
                                        }
                                    }
                                } else {
                                    proof {
                                        assert forall|es: Seq<EntryView>|
                                            map_evolves(placeholders@, es) implies errors_from(
                                            t,
                                            0,
                                            es,
                                            Set::<Seq<char>>::empty(),
                                        ) == errors@ + #[trigger] errors_from(
                                            t,
                                            end as int,
                                            es,
                                            seen,
                                        ) by {
                                            lemma_map_evolves_trans(map_pre, placeholders@, es);
                                            lemma_find_index_evolves(map_pre, es, key@, 0);
                                            assert(entry_evolves(
                                                placeholders@[idx as int],
                                                es[idx as int],
                                            ));
                                            assert(seen.contains(key@));
                                            assert(errors_from(t, pos as int, es, seen)
                                                == errors_from(t, end as int, es, seen));
                                        }
                                    }
                                }
                            },
                            None => {
                                proof {
                                    assert forall|es: Seq<EntryView>|
                                        map_evolves(placeholders@, es) implies errors_from(
                                        t,
                                        0,
                                        es,
                                        Set::<Seq<char>>::empty(),
                                    ) == errors@ + #[trigger] errors_from(
                                        t,
                                        end as int,
                                        es,
                                        seen,
                                    ) by {
                                        lemma_map_evolves_trans(map_pre, placeholders@, es);
                                        lemma_find_index_evolves(map_pre, es, key@, 0);
                                        assert(entry_evolves(
                                            placeholders@[idx as int],
                                            es[idx as int],
                                        ));
                                        assert(error_at(es, key@) is None);
                                        assert(errors_from(t, pos as int, es, seen) == errors_from(
                                            t,
                                            end as int,
                                            es,
                                            seen,
                                        ));
                                    }
                                }
                            },
                        }
                        proof {
                            assert(placeholders@[idx as int].key == key@) by {
                                assert(entry_evolves(map_pre[idx as int], placeholders@[idx as int]));
                            }
                            assert(referenced_keys(t, pos as int) == referenced_keys(
                                t,
                                end as int,
                            ).insert(key@));
                            assert(referenced_keys(t, pos as int).contains(key@));
                            assert forall|x: Seq<char>|
                                referenced_keys(t, end as int).contains(x) implies referenced_keys(
                                t,
                                0,
                            ).contains(x) by {
                                assert(referenced_keys(t, pos as int).contains(x));
                            }
                            assert forall|j: int|
                                0 <= j < old(placeholders)@.len() && placeholders@[j] != (
                                #[trigger] old(placeholders)@[j]) implies referenced_keys(
                                t,
                                0,
                            ).contains(old(placeholders)@[j].key) by {
                                if j == idx {
                                    assert(entry_evolves(
                                        old(placeholders)@[idx as int],
                                        map_pre[idx as int],
                                    ));
                                    assert(old(placeholders)@[idx as int].key == key@);
                                } else {
                                    assert(placeholders@[j] == map_pre[j]);
                                }
                            }
                            assert forall|k2: Seq<char>|
                                referenced_keys(t, 0).contains(k2) && !referenced_keys(
                                    t,
                                    end as int,
                                ).contains(k2) implies (match lookup(placeholders@, k2) {
                                Some(PlaceholderValueView::Command(c)) => c.output is Some,
                                _ => true,
                            }) by {
                                lemma_find_index_evolves(map_pre, placeholders@, k2, 0);
                                lemma_find_index_key(map_pre, k2, 0);
                                if k2 == key@ {
                                    assert(find_index_from(placeholders@, key@, 0) == Some(
                                        idx as int,
                                    ));
                                    assert(lookup(placeholders@, key@) == Some(
                                        placeholders@[idx as int].value,
                                    ));
                                } else {
                                    assert(!referenced_keys(t, pos as int).contains(k2));
                                    match find_index_from(map_pre, k2, 0) {
                                        Some(w) => {
                                            assert(map_pre[w].key == k2);
                                            assert(w != idx);
                                            assert(placeholders@[w] == map_pre[w]);
                                            assert(lookup(placeholders@, k2) == Some(
                                                map_pre[w].value,
                                            ));
                                            assert(lookup(map_pre, k2) == Some(map_pre[w].value));
                                        },
                                        None => {
                                            assert(lookup(placeholders@, k2) is None);
                                        },
                                    }
                                }
                            }
                        }
                        pos = end;
                    },
                }
            },
        }
    }
    proof {
        lemma_map_evolves_refl(placeholders@);
        assert(render_from(t, pos as int, placeholders@) == Seq::<char>::empty());
        assert(dst@ + Seq::<char>::empty() =~= dst@);
        assert(errors_from(t, pos as int, placeholders@, seen) == Seq::<
            (Seq<char>, Seq<char>),
        >::empty());
        assert(errors@ + Seq::<(Seq<char>, Seq<char>)>::empty() =~= errors@);
    }
    TemplateReplacement::new(dst, errors.into_errors())
}


/// Unknown placeholders pass through: rendering against a map that holds no
/// keys returns the template unchanged, token for token, and reports no
/// errors.
pub proof fn lemma_render_empty_map_identity(t: Seq<char>, i: int)
    requires
        0 <= i <= t.len(),
    ensures
        render_from(t, i, Seq::<EntryView>::empty()) == t.subrange(i, t.len() as int),
        forall|seen: Set<Seq<char>>|
            #[trigger] errors_from(t, i, Seq::<EntryView>::empty(), seen) == Seq::<
                (Seq<char>, Seq<char>),
            >::empty(),
    decreases t.len() - i,
{
    let es = Seq::<EntryView>::empty();
    lemma_match_at_bounds(t, i);
    if i == t.len() {
        assert(t.subrange(i, t.len() as int) =~= Seq::<char>::empty());
    } else {
        match match_at(t, i) {
            Some(p) => {
                lemma_render_empty_map_identity(t, p.0);
                assert(find_index_from(es, p.1, 0) is None);
                assert(insertion_of(t.subrange(i, p.0), p.1, es) == t.subrange(i, p.0));
                assert(render_from(t, i, es) == t.subrange(i, p.0) + render_from(t, p.0, es));
                assert(t.subrange(i, p.0) + t.subrange(p.0, t.len() as int) =~= t.subrange(
                    i,
                    t.len() as int,
                ));
                assert(error_at(es, p.1) is None);
                assert forall|seen: Set<Seq<char>>|
                    #[trigger] errors_from(t, i, es, seen) == Seq::<
                        (Seq<char>, Seq<char>),
                    >::empty() by {
                    assert(errors_from(t, i, es, seen) == errors_from(t, p.0, es, seen));
                }
            },
            None => {
                lemma_render_empty_map_identity(t, i + 1);
                assert(render_from(t, i, es) == seq![t[i]] + render_from(t, i + 1, es));
                assert(seq![t[i]] + t.subrange(i + 1, t.len() as int) =~= t.subrange(
                    i,
                    t.len() as int,
                ));
                assert forall|seen: Set<Seq<char>>|
                    #[trigger] errors_from(t, i, es, seen) == Seq::<
                        (Seq<char>, Seq<char>),
                    >::empty() by {
                    assert(errors_from(t, i, es, seen) == errors_from(t, i + 1, es, seen));
                }
            },
        }
    }
}

/// What shellwords' Bourne-shell word splitting yields for a command line,
/// when the quoting is well formed.
pub uninterp spec fn shell_words_of(s: Seq<char>) -> Option<Seq<Seq<char>>>;

/// Relies on shellwords::split: it splits a command line into words the way
/// the UNIX Bourne shell would, failing exactly on mismatched quotes; the
/// result depends on the text alone.
#[verifier::external_body]
fn split_shell_words(to_parse: &str) -> (r: Result<Vec<String>, AppError>)
    ensures
        (r is Ok <==> shell_words_of(to_parse@) is Some),
        r matches Ok(v) ==> shell_words_of(to_parse@) == Some(v.deep_view()),
        r matches Err(e) ==> e == AppError::MismatchedQuotes,
{
    match shellwords::split(to_parse) {
        Ok(words) => Ok(words),
        Err(_) => Err(AppError::MismatchedQuotes),
    }
}

/// Splits a placeholder's command line into program and arguments using
/// shell-word semantics; an unterminated quote is the one parse error.
pub fn parse_commmand_text(to_parse: &str) -> (r: AppResult<Vec<String>>)
    ensures
        (r is Ok <==> shell_words_of(to_parse@) is Some),
        r matches Ok(v) ==> shell_words_of(to_parse@) == Some(v.deep_view()),
        r matches Err(e) ==> e == AppError::MismatchedQuotes,
{
    split_shell_words(to_parse)
}

/// Words glued with a separator between them.
pub open spec fn join_with(ws: Seq<Seq<char>>, sep: char) -> Seq<char>
    decreases ws.len(),
{
    if ws.len() == 0 {
        Seq::empty()
    } else if ws.len() == 1 {
        ws[0]
    } else {
        join_with(ws.drop_last(), sep) + seq![sep] + ws.last()
    }
}

/// The text a scripted test processor answers with: `"Executed_"` followed
/// by the command's words joined with underscores.
pub open spec fn dummy_processed_of(ws: Seq<Seq<char>>) -> Seq<char> {
    seq!['E', 'x', 'e', 'c', 'u', 't', 'e', 'd', '_'] + join_with(ws, '_')
}

/// Builds the scripted answer for a well-quoted command line.
#[verifier::loop_isolation(false)]
pub fn return_dummy_processed_command(input: &str) -> (r: String)
    requires
        shell_words_of(input@) is Some,
    ensures
        shell_words_of(input@) matches Some(ws) && r@ == dummy_processed_of(ws),
{
    let splitted = match parse_commmand_text(input) {
        Ok(v) => v,
        Err(_) => {
            proof {
                assert(false);
            }
            Vec::new()
        },
    };
    let ghost ws = splitted.deep_view();
    let mut output = String::from_str("Executed_");
    proof {
        reveal_strlit("Executed_");
        assert(output@ =~= seq!['E', 'x', 'e', 'c', 'u', 't', 'e', 'd', '_']);
        assert(join_with(ws.take(0), '_') =~= Seq::<char>::empty());
        assert(output@ + join_with(ws.take(0), '_') =~= output@);
    }
    let mut i: usize = 0;
    while i < splitted.len()
        invariant
            i <= splitted.len(),
            output@ == seq!['E', 'x', 'e', 'c', 'u', 't', 'e', 'd', '_'] + join_with(
                ws.take(i as int),
                '_',
            ),
        decreases splitted.len() - i,
    {
        if i > 0 {
            output.push('_');
        }
        output.append(splitted[i].as_str());
        proof {
            assert(ws[i as int] == splitted@[i as int]@);
            assert(ws.take(i + 1 as int).drop_last() =~= ws.take(i as int));
            assert(ws.take(i + 1 as int).last() == ws[i as int]);
            if i == 0 {
                assert(join_with(ws.take(1), '_') == ws[0]);
                assert(output@ =~= seq!['E', 'x', 'e', 'c', 'u', 't', 'e', 'd', '_'] + join_with(
                    ws.take(1),
                    '_',
                ));
            } else {
                assert(join_with(ws.take(i + 1 as int), '_') == join_with(ws.take(i as int), '_')
                    + seq!['_'] + ws[i as int]);
                assert(output@ =~= seq!['E', 'x', 'e', 'c', 'u', 't', 'e', 'd', '_'] + join_with(
                    ws.take(i + 1 as int),
                    '_',
                ));
            }
        }
        i = i + 1;
    }
    proof {
        assert(ws.take(splitted.len() as int) =~= ws);
    }
    output
}

/// Like `return_dummy_processed_command`, for callers that have not checked
/// the command line: hands back nothing when the quoting is mismatched.
pub fn dummy_processed_command(input: &str) -> (r: Option<String>)
    ensures
        (r is Some <==> shell_words_of(input@) is Some),
        r matches Some(v) ==> shell_words_of(input@) matches Some(ws) && v@ == dummy_processed_of(
            ws,
        ),
{
    match parse_commmand_text(input) {
        Ok(_) => Some(return_dummy_processed_command(input)),
        Err(_) => None,
    }
}

} // verus!
