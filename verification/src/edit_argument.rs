//! The options shared by the edit commands: which editor to use and whether
//! to only print the journal instead of opening it.

use vstd::prelude::*;
use vstd::string::StringExecFns;

use crate::app_options::AppOptions;

verus! {

/// The editor used when neither the command line nor the config names one.
pub const DEFAUTL_EDITOR: &'static str = "vim";

/// Editor choice and show-only switch of an edit invocation.
#[derive(Debug)]
pub struct EditCommonArgs {
    editor: Option<String>,
    show_only: bool,
}

/// The editor an invocation resolves to: the command line wins, then the
/// config file, then the default editor.
pub open spec fn resolved_editor_of(args: EditCommonArgs, options: AppOptions) -> Seq<char> {
    match args.editor_view() {
        Some(e) => e,
        None => match options.config_spec() {
            Some(conf) => match conf.editor_view() {
                Some(e) => e,
                None => DEFAUTL_EDITOR@,
            },
            None => DEFAUTL_EDITOR@,
        },
    }
}

impl EditCommonArgs {
    pub closed spec fn editor_view(self) -> Option<Seq<char>> {
        match self.editor {
            Some(e) => Some(e@),
            None => None,
        }
    }

    pub closed spec fn show_only_spec(self) -> bool {
        self.show_only
    }

    pub fn new(editor: Option<String>, show_only: bool) -> (r: Self)
        ensures
            r.editor_view() == (match editor {
                Some(e) => Some(e@),
                None => None::<Seq<char>>,
            }),
            r.show_only_spec() == show_only,
    {
        Self { editor, show_only }
    }

    pub fn editor(&self) -> (r: &Option<String>)
        ensures
            (*r is Some <==> self.editor_view() is Some),
            *r matches Some(e) ==> self.editor_view() == Some(e@),
    {
        &self.editor
    }

    pub fn show_only(&self) -> (r: bool)
        ensures
            r == self.show_only_spec(),
    {
        self.show_only
    }

    /// Returns the editor to use for opening journals: from the command
    /// line, else from the loaded config file, else the default editor.
    pub fn resolve_editor(&self, config: &AppOptions) -> (r: String)
        ensures
            r@ == resolved_editor_of(*self, *config),
    {
        match &self.editor {
            Some(to_use) => to_use.clone(),
            None => match config.load_config() {
                Some(editor_from_config) => match editor_from_config.editor() {
                    Some(editor) => editor.clone(),
                    None => String::from_str(DEFAUTL_EDITOR),
                },
                None => String::from_str(DEFAUTL_EDITOR),
            },
        }
    }
}

impl Default for EditCommonArgs {
    /// No editor named and not show-only.
    fn default() -> (r: Self)
        ensures
            r.editor_view() is None,
            !r.show_only_spec(),
    {
        Self { editor: None, show_only: false }
    }
}

} // verus!
