//! The application's command-line data: which subcommand runs and the
//! general options every command shares.  The surrounding application
//! parses the real command line into these values.

use vstd::prelude::*;

use crate::deletion_arguments::{DeleteDateArg, DeleteMonthArg, DeleteYearArg};
use crate::edit_command::EditCommandAndArgs;
use crate::edit_year::EditByYear;
use crate::list_command::ListCommand;
use crate::month_edit_command::EditByMonthCommandAndArgs;
use crate::month_list_command::ListByMonthCommand;

verus! {

/// Development-only switches.
#[derive(Debug, Clone, Copy, PartialEq, Eq, Structural)]
pub struct DebugArgs {
    user_local_share_data: bool,
    run_editor_dry: bool,
}

impl DebugArgs {
    pub closed spec fn user_local_share_data_spec(self) -> bool {
        self.user_local_share_data
    }

    pub closed spec fn run_editor_dry_spec(self) -> bool {
        self.run_editor_dry
    }

    pub fn new(user_local_share_data: bool, run_editor_dry: bool) -> (r: Self)
        ensures
            r.user_local_share_data_spec() == user_local_share_data,
            r.run_editor_dry_spec() == run_editor_dry,
    {
        Self { user_local_share_data, run_editor_dry }
    }

    pub fn user_local_share_data(&self) -> (r: bool)
        ensures
            r == self.user_local_share_data_spec(),
    {
        self.user_local_share_data
    }

    pub fn run_editor_dry(&self) -> (r: bool)
        ensures
            r == self.run_editor_dry_spec(),
    {
        self.run_editor_dry
    }
}

/// Options every subcommand shares.
#[derive(Debug)]
pub struct GenerellArgs {
    debug: bool,
    config_path: Option<String>,
    data_path: Option<String>,
}

impl GenerellArgs {
    pub closed spec fn debug_spec(self) -> bool {
        self.debug
    }

    pub closed spec fn config_path_view(self) -> Option<Seq<char>> {
        match self.config_path {
            Some(p) => Some(p@),
            None => None,
        }
    }

    pub closed spec fn data_path_view(self) -> Option<Seq<char>> {
        match self.data_path {
            Some(p) => Some(p@),
            None => None,
        }
    }

    pub fn new(debug: bool, config_path: Option<String>, data_path: Option<String>) -> (r: Self)
        ensures
            r.debug_spec() == debug,
            r.config_path_view() == (match config_path {
                Some(p) => Some(p@),
                None => None::<Seq<char>>,
            }),
            r.data_path_view() == (match data_path {
                Some(p) => Some(p@),
                None => None::<Seq<char>>,
            }),
    {
        Self { debug, config_path, data_path }
    }

    pub fn debug(&self) -> (r: bool)
        ensures
            r == self.debug_spec(),
    {
        self.debug
    }

    pub fn config_path(&self) -> (r: &Option<String>)
        ensures
            (*r is Some <==> self.config_path_view() is Some),
            *r matches Some(p) ==> self.config_path_view() == Some(p@),
    {
        &self.config_path
    }

    pub fn data_path(&self) -> (r: &Option<String>)
        ensures
            (*r is Some <==> self.data_path_view() is Some),
            *r matches Some(p) ==> self.data_path_view() == Some(p@),
    {
        &self.data_path
    }
}

impl Clone for GenerellArgs {
    fn clone(&self) -> (r: Self)
        ensures
            r.debug_spec() == self.debug_spec(),
            r.config_path_view() == self.config_path_view(),
            r.data_path_view() == self.data_path_view(),
    {
        Self {
            debug: self.debug,
            config_path: match &self.config_path {
                Some(p) => Some(p.clone()),
                None => None,
            },
            data_path: match &self.data_path {
                Some(p) => Some(p.clone()),
                None => None,
            },
        }
    }
}

impl Default for GenerellArgs {
    /// No debugging and no overridden paths.
    fn default() -> (r: Self)
        ensures
            !r.debug_spec(),
            r.config_path_view() is None,
            r.data_path_view() is None,
    {
        Self { debug: false, config_path: None, data_path: None }
    }
}

/// The subcommands the application dispatches on.
#[derive(Debug)]
pub enum AppCommands {
    /// Shows created daily entries.
    List(ListCommand),
    /// Opens or creates the journal for a day.
    Edit(EditCommandAndArgs),
    /// Deletes the journal of a day.
    Delete(DeleteDateArg),
    /// Opens or creates the journal for a month.
    MonthEdit(EditByMonthCommandAndArgs),
    /// Deletes the journal of a month.
    DeleteMonth(DeleteMonthArg),
    /// Lists monthly journals.
    MonthList(ListByMonthCommand),
    /// Opens or creates the journal for a year.
    YearEdit(EditByYear),
    /// Deletes the journal of a year.
    DeleteYear(DeleteYearArg),
    /// Lists all yearly journals.
    YearList,
}

/// Everything parsed from the command line.
#[derive(Debug)]
pub struct CliArgs {
    debug_args: Option<DebugArgs>,
    args: GenerellArgs,
    commands: AppCommands,
}

impl CliArgs {
    pub closed spec fn debug_args_spec(self) -> Option<DebugArgs> {
        self.debug_args
    }

    pub closed spec fn args_spec(self) -> GenerellArgs {
        self.args
    }

    pub closed spec fn commands_spec(self) -> AppCommands {
        self.commands
    }

    pub fn new(debug_args: Option<DebugArgs>, args: GenerellArgs, commands: AppCommands) -> (r:
        Self)
        ensures
            r.debug_args_spec() == debug_args,
            r.args_spec() == args,
    {
        Self { debug_args, args, commands }
    }

    pub fn debug_args(&self) -> (r: &Option<DebugArgs>)
        ensures
            *r == self.debug_args_spec(),
    {
        &self.debug_args
    }

    pub fn args(&self) -> (r: &GenerellArgs)
        ensures
            *r == self.args_spec(),
    {
        &self.args
    }

    pub fn commands(&self) -> (r: &AppCommands)
        ensures
            *r == self.commands_spec(),
    {
        &self.commands
    }
}

} // verus!
