//! In-memory form of the application's configuration file: template paths,
//! data folder, editor and the placeholder declarations.  Reading the file
//! from disk and deserializing it is the surrounding application's job; this
//! module holds the decisions made on the loaded values.

use vstd::prelude::*;
use vstd::string::StrSliceExecFns;

use crate::command_processor::{CommandToExecute, CommandView};
use crate::constants::SIGN_FOR_FROM_CONF_FOLDER;
use crate::dates_names::ResolvePlaceholders;
use crate::strutil;
use crate::template::{
    find_index_from, EntryView, PlaceholderMap, PlaceholderTemplate, PlaceholderValueView,
};

verus! {

/// A placeholder declaration from the config: `key` is looked up in the
/// template, `value` replaces it (or names a command when `is_command`).
#[derive(Debug)]
pub struct PlaceHolder {
    key: String,
    value: String,
    is_command: Option<bool>,
}

impl PlaceHolder {
    pub closed spec fn key_view(self) -> Seq<char> {
        self.key@
    }

    pub closed spec fn value_view(self) -> Seq<char> {
        self.value@
    }

    pub closed spec fn is_command_spec(self) -> Option<bool> {
        self.is_command
    }

    pub fn new(key: String, value: String, is_command: Option<bool>) -> (r: Self)
        ensures
            r.key_view() == key@,
            r.value_view() == value@,
            r.is_command_spec() == is_command,
    {
        Self { key, value, is_command }
    }

    pub fn key(&self) -> (r: &String)
        ensures
            r@ == self.key_view(),
    {
        &self.key
    }

    pub fn value(&self) -> (r: &String)
        ensures
            r@ == self.value_view(),
    {
        &self.value
    }

    pub fn is_command(&self) -> (r: &Option<bool>)
        ensures
            *r == self.is_command_spec(),
    {
        &self.is_command
    }
}

/// Access to the values the config file provided; absent fields are `None`.
#[derive(Debug)]
pub struct AppConfig {
    yearly_template: Option<String>,
    monthly_template: Option<String>,
    daily_template: Option<String>,
    data_foler: Option<String>,
    placeholders: Option<Vec<PlaceHolder>>,
    editor: Option<String>,
    /// Path of the folder the config file was loaded from.
    root_path: String,
}

pub open spec fn view_of_opt_string(s: Option<String>) -> Option<Seq<char>> {
    match s {
        Some(v) => Some(v@),
        None => None,
    }
}

impl AppConfig {
    pub closed spec fn yearly_template_view(self) -> Option<Seq<char>> {
        view_of_opt_string(self.yearly_template)
    }

    pub closed spec fn monthly_template_view(self) -> Option<Seq<char>> {
        view_of_opt_string(self.monthly_template)
    }

    pub closed spec fn daily_template_view(self) -> Option<Seq<char>> {
        view_of_opt_string(self.daily_template)
    }

    pub closed spec fn data_foler_view(self) -> Option<Seq<char>> {
        view_of_opt_string(self.data_foler)
    }

    pub closed spec fn editor_view(self) -> Option<Seq<char>> {
        view_of_opt_string(self.editor)
    }

    pub closed spec fn root_path_view(self) -> Seq<char> {
        self.root_path@
    }

    pub closed spec fn placeholders_spec(self) -> Option<Seq<PlaceHolder>> {
        match self.placeholders {
            Some(v) => Some(v@),
            None => None,
        }
    }

    #[allow(clippy::too_many_arguments)]
    pub fn new(
        yearly_template: Option<String>,
        monthly_template: Option<String>,
        daily_template: Option<String>,
        data_foler: Option<String>,
        placeholders: Option<Vec<PlaceHolder>>,
        editor: Option<String>,
        root_path: String,
    ) -> (r: Self)
        ensures
            r.yearly_template_view() == view_of_opt_string(yearly_template),
            r.monthly_template_view() == view_of_opt_string(monthly_template),
            r.daily_template_view() == view_of_opt_string(daily_template),
            r.data_foler_view() == view_of_opt_string(data_foler),
            r.editor_view() == view_of_opt_string(editor),
            r.root_path_view() == root_path@,
            r.placeholders_spec() == (match placeholders {
                Some(v) => Some(v@),
                None => None::<Seq<PlaceHolder>>,
            }),
    {
        Self {
            yearly_template,
            monthly_template,
            daily_template,
            data_foler,
            placeholders,
            editor,
            root_path,
        }
    }

    pub fn data_foler(&self) -> (r: &Option<String>)
        ensures
            view_of_opt_string(*r) == self.data_foler_view(),
    {
        &self.data_foler
    }

    pub fn editor(&self) -> (r: &Option<String>)
        ensures
            view_of_opt_string(*r) == self.editor_view(),
    {
        &self.editor
    }

    pub fn root_path(&self) -> (r: &String)
        ensures
            r@ == self.root_path_view(),
    {
        &self.root_path
    }

    pub fn placeholders(&self) -> (r: &Option<Vec<PlaceHolder>>)
        ensures
            (r is Some <==> self.placeholders_spec() is Some),
            r matches Some(v) ==> self.placeholders_spec() == Some(v@),
    {
        &self.placeholders
    }

    pub fn yearly_template(&self) -> (r: PatchFromConfig)
        ensures
            r.path_view() == self.yearly_template_view(),
    {
        PatchFromConfig::new(clone_opt_string(&self.yearly_template))
    }

    pub fn monthly_template(&self) -> (r: PatchFromConfig)
        ensures
            r.path_view() == self.monthly_template_view(),
    {
        PatchFromConfig::new(clone_opt_string(&self.monthly_template))
    }

    pub fn daily_template(&self) -> (r: PatchFromConfig)
        ensures
            r.path_view() == self.daily_template_view(),
    {
        PatchFromConfig::new(clone_opt_string(&self.daily_template))
    }
}

impl Default for AppConfig {
    /// An empty configuration: no templates, no placeholders, no editor.
    fn default() -> (r: Self)
        ensures
            r.yearly_template_view() is None,
            r.monthly_template_view() is None,
            r.daily_template_view() is None,
            r.data_foler_view() is None,
            r.editor_view() is None,
            r.placeholders_spec() is None,
            r.root_path_view() == Seq::<char>::empty(),
    {
        Self {
            yearly_template: None,
            monthly_template: None,
            daily_template: None,
            data_foler: None,
            placeholders: None,
            editor: None,
            root_path: String::new(),
        }
    }
}

fn clone_opt_string(s: &Option<String>) -> (r: Option<String>)
    ensures
        view_of_opt_string(r) == view_of_opt_string(*s),
{
    match s {
        Some(v) => Some(v.clone()),
        None => None,
    }
}

/// A template path as the config file states it, before any path resolution.
pub struct PatchFromConfig {
    path: Option<String>,
}

/// Where a template path points: either directly below the config folder
/// (the config value began with the marker sign), or a path that still needs
/// shell-style expansion by the surrounding application.
pub enum ResolvedTemplatePath {
    /// Join `relative` onto the config folder `root`.
    InConfigFolder { root: String, relative: String },
    /// Expand and resolve this raw path.
    Expandable(String),
}

impl PatchFromConfig {
    pub closed spec fn path_view(self) -> Option<Seq<char>> {
        view_of_opt_string(self.path)
    }

    pub fn new(path: Option<String>) -> (r: Self)
        ensures
            r.path_view() == view_of_opt_string(path),
    {
        Self { path }
    }

    /// Decides how the configured path is to be resolved: a leading marker
    /// sign pins it under the config folder, anything else is handed on for
    /// expansion; an absent path stays absent.
    pub fn try_to_resolved_path(&self, option: &AppConfig) -> (r: Option<ResolvedTemplatePath>)
        ensures
            (r is Some <==> self.path_view() is Some),
            r matches Some(t) ==> self.path_view() matches Some(p) && (if p.len() > 0 && p[0]
                == SIGN_FOR_FROM_CONF_FOLDER {
                t matches ResolvedTemplatePath::InConfigFolder { root, relative } && root@
                    == option.root_path_view() && relative@ == p.skip(1)
            } else {
                t matches ResolvedTemplatePath::Expandable(raw) && raw@ == p
            }),
    {
        match &self.path {
            None => None,
            Some(path) => {
                let n = path.as_str().unicode_len();
                if n > 0 && path.as_str().get_char(0) == SIGN_FOR_FROM_CONF_FOLDER {
                    let without_sign = strutil::substring_copy(path.as_str(), 1, n);
                    proof {
                        assert(path@.subrange(1, n as int) =~= path@.skip(1));
                    }
                    Some(
                        ResolvedTemplatePath::InConfigFolder {
                            root: option.root_path().clone(),
                            relative: without_sign,
                        },
                    )
                } else {
                    Some(ResolvedTemplatePath::Expandable(path.clone()))
                }
            },
        }
    }
}


/// The text with every leading built-in marker pair stripped.
pub open spec fn strip_prefix_pairs(s: Seq<char>) -> Seq<char>
    decreases s.len(),
{
    if s.len() >= 2 && s[0] == '{' && s[1] == '{' {
        strip_prefix_pairs(s.skip(2))
    } else {
        s
    }
}

/// The text with every trailing built-in marker pair stripped.
pub open spec fn strip_suffix_pairs(s: Seq<char>) -> Seq<char>
    decreases s.len(),
{
    if s.len() >= 2 && s[s.len() - 1] == '}' && s[s.len() - 2] == '}' {
        strip_suffix_pairs(s.take(s.len() - 2))
    } else {
        s
    }
}

/// A config value with the built-in variable markers (`{{` and `}}`, also
/// repeated) stripped from both ends.
pub open spec fn strip_builtin_markers(s: Seq<char>) -> Seq<char> {
    strip_suffix_pairs(strip_prefix_pairs(s))
}

proof fn lemma_strip_prefix_at(s: Seq<char>, a: int)
    requires
        0 <= a <= s.len(),
        a % 2 == 0,
        forall|k: int| 0 <= k < a ==> s[k] == '{',
        a + 1 >= s.len() || s[a] != '{' || s[a + 1] != '{',
    ensures
        strip_prefix_pairs(s) == s.skip(a),
    decreases a,
{
    if a == 0 {
        assert(s.skip(0) =~= s);
    } else {
        assert(s[0] == '{' && s[1] == '{');
        let d = s.skip(2);
        lemma_strip_prefix_at(d, a - 2);
        assert(d.skip(a - 2) =~= s.skip(a));
    }
}

proof fn lemma_strip_suffix_at(u: Seq<char>, m: int)
    requires
        0 <= m <= u.len(),
        (u.len() - m) % 2 == 0,
        forall|k: int| m <= k < u.len() ==> u[k] == '}',
        m < 2 || u[m - 1] != '}' || u[m - 2] != '}',
    ensures
        strip_suffix_pairs(u) == u.take(m),
    decreases u.len() - m,
{
    if m == u.len() {
        assert(u.take(m) =~= u);
    } else {
        assert(u[u.len() - 1] == '}' && u[u.len() - 2] == '}');
        let d = u.take(u.len() - 2);
        lemma_strip_suffix_at(d, m);
        assert(d.take(m) =~= u.take(m));
    }
}

/// The bounds of a value with its built-in markers stripped from both ends.
#[verifier::loop_isolation(false)]
fn strip_builtin_bounds(s: &str) -> (r: (usize, usize))
    ensures
        r.0 <= r.1 <= s@.len(),
        s@.subrange(r.0 as int, r.1 as int) == strip_builtin_markers(s@),
{
    let n = s.unicode_len();
    let mut a: usize = 0;
    while a + 1 < n && s.get_char(a) == '{' && s.get_char(a + 1) == '{'
        invariant
            a <= n,
            a % 2 == 0,
            forall|k: int| 0 <= k < a ==> s@[k] == '{',
        decreases n - a,
    {
        a = a + 2;
    }
    proof {
        lemma_strip_prefix_at(s@, a as int);
    }
    let ghost u = s@.skip(a as int);
    let mut b: usize = n;
    while b - a >= 2 && s.get_char(b - 1) == '}' && s.get_char(b - 2) == '}'
        invariant
            a <= b <= n,
            (n - b) % 2 == 0,
            forall|k: int| b <= k < n ==> s@[k] == '}',
        decreases b,
    {
        b = b - 2;
    }
    proof {
        assert(forall|k: int| b - a <= k < u.len() ==> u[k] == '}');
        lemma_strip_suffix_at(u, b - a as int);
        assert(u.take(b - a as int) =~= s@.subrange(a as int, b as int));
    }
    (a, b)
}

/// What a direct config value resolves to: the value with its markers
/// stripped is offered to the journal as a built-in variable name; when the
/// journal does not know it, the original value — markers included — is
/// kept.
pub open spec fn resolved_direct_of<J: ResolvePlaceholders>(jv: J::V, value: Seq<char>) -> Seq<
    char,
> {
    match J::resolve_of(jv, strip_builtin_markers(value)) {
        Some(res) => res,
        None => value,
    }
}

fn resolve_direct_value<J: ResolvePlaceholders>(journal: &J, value: &String) -> (r: String)
    ensures
        r@ == resolved_direct_of::<J>(journal@, value@),
{
    let (a, b) = strip_builtin_bounds(value.as_str());
    let trimmed = strutil::substring_copy(value.as_str(), a, b);
    match journal.resolve_variable(trimmed.as_str()) {
        Some(res) => res,
        None => value.clone(),
    }
}

/// The placeholder value a config declaration denotes for a journal.
pub open spec fn placeholder_value_of<J: ResolvePlaceholders>(
    p: PlaceHolder,
    jv: J::V,
) -> PlaceholderValueView {
    if p.is_command_spec() == Some(true) {
        PlaceholderValueView::Command(
            (CommandView { command: p.value_view(), output: None::<
                crate::command_processor::CommandOutputView,
            > }),
        )
    } else {
        PlaceholderValueView::Direct(resolved_direct_of::<J>(jv, p.value_view()))
    }
}

/// The placeholder map the config declarations build up, in order; a
/// repeated key keeps its place and takes the later value.
pub open spec fn build_placeholder_map<J: ResolvePlaceholders>(
    ps: Seq<PlaceHolder>,
    jv: J::V,
) -> Seq<EntryView>
    decreases ps.len(),
{
    if ps.len() == 0 {
        Seq::empty()
    } else {
        let prev = build_placeholder_map::<J>(ps.drop_last(), jv);
        let p = ps.last();
        let entry = EntryView { key: p.key_view(), value: placeholder_value_of::<J>(p, jv) };
        match find_index_from(prev, p.key_view(), 0) {
            Some(i) => prev.update(i, entry),
            None => prev.push(entry),
        }
    }
}

impl AppConfig {
    /// Builds the placeholder map for rendering this journal's template:
    /// command declarations become not-yet-run commands, direct values are
    /// resolved against the journal's built-in variables.
    #[verifier::loop_isolation(false)]
    pub fn create_template_placeholder_for<J: ResolvePlaceholders>(&self, journal: &J) -> (r:
        PlaceholderMap)
        ensures
            r@ == (match self.placeholders_spec() {
                None => Seq::<EntryView>::empty(),
                Some(ps) => build_placeholder_map::<J>(ps, journal@),
            }),
    {
        let mut output = PlaceholderMap::new();
        match self.placeholders() {
            None => output,
            Some(read_placeholders_from_config) => {
                let ghost ps = read_placeholders_from_config@;
                let mut i: usize = 0;
                proof {
                    assert(build_placeholder_map::<J>(ps.take(0), journal@)
                        =~= Seq::<EntryView>::empty());
                }
                while i < read_placeholders_from_config.len()
                    invariant
                        i <= ps.len(),
                        output@ == build_placeholder_map::<J>(ps.take(i as int), journal@),
                    decreases ps.len() - i,
                {
                    let to_convert = &read_placeholders_from_config[i];
                    let value = match to_convert.is_command() {
                        Some(is) => {
                            if *is {
                                PlaceholderTemplate::Commmand(
                                    CommandToExecute::new(to_convert.value().clone()),
                                )
                            } else {
                                PlaceholderTemplate::DirectValue(
                                    resolve_direct_value(journal, to_convert.value()),
                                )
                            }
                        },
                        None => PlaceholderTemplate::DirectValue(
                            resolve_direct_value(journal, to_convert.value()),
                        ),
                    };
                    proof {
                        assert(value@ == placeholder_value_of::<J>(ps[i as int], journal@));
                    }
                    output.insert(to_convert.key().clone(), value);
                    proof {
                        assert(ps.take(i + 1 as int).drop_last() =~= ps.take(i as int));
                        assert(ps.take(i + 1 as int).last() == ps[i as int]);
                        assert(output@ == build_placeholder_map::<J>(
                            ps.take(i + 1 as int),
                            journal@,
                        ));
                    }
                    i = i + 1;
                }
                proof {
                    assert(ps.take(ps.len() as int) =~= ps);
                }
                output
            },
        }
    }
}

} // verus!
