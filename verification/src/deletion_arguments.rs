//! The delete commands' arguments: which journal to delete and whether to
//! skip the confirmation prompt.

use vstd::prelude::*;

use crate::edit_command::EditCommand;
use crate::month_edit_command::EditByMonthCommand;

verus! {

/// Whether deletion may proceed without asking.
#[derive(Debug, Clone, Copy, PartialEq, Eq, Structural)]
pub struct CommonDeleteArg {
    skip_confirmation: bool,
}

impl CommonDeleteArg {
    pub closed spec fn skip_confirmation_spec(self) -> bool {
        self.skip_confirmation
    }

    pub fn new(skip_confirmation: bool) -> (r: Self)
        ensures
            r.skip_confirmation_spec() == skip_confirmation,
    {
        Self { skip_confirmation }
    }

    pub fn skip_confirmation(&self) -> (r: bool)
        ensures
            r == self.skip_confirmation_spec(),
    {
        self.skip_confirmation
    }
}

/// Deleting a daily journal: its date selection and the common options.
#[derive(Debug, Clone, Copy, PartialEq, Eq, Structural)]
pub struct DeleteDateArg {
    date: EditCommand,
    common_arg: CommonDeleteArg,
}

impl DeleteDateArg {
    pub closed spec fn date_spec(self) -> EditCommand {
        self.date
    }

    pub closed spec fn common_arg_spec(self) -> CommonDeleteArg {
        self.common_arg
    }

    pub fn new(date: EditCommand, common_arg: CommonDeleteArg) -> (r: Self)
        ensures
            r.date_spec() == date,
            r.common_arg_spec() == common_arg,
    {
        Self { date, common_arg }
    }

    pub fn date(&self) -> (r: &EditCommand)
        ensures
            *r == self.date_spec(),
    {
        &self.date
    }

    pub fn common_arg(&self) -> (r: &CommonDeleteArg)
        ensures
            *r == self.common_arg_spec(),
    {
        &self.common_arg
    }
}

/// Deleting a monthly journal.
#[derive(Debug, Clone, Copy, PartialEq, Eq, Structural)]
pub struct DeleteMonthArg {
    month: EditByMonthCommand,
    common_arg: CommonDeleteArg,
}

impl DeleteMonthArg {
    pub closed spec fn month_spec(self) -> EditByMonthCommand {
        self.month
    }

    pub closed spec fn common_arg_spec(self) -> CommonDeleteArg {
        self.common_arg
    }

    pub fn new(month: EditByMonthCommand, common_arg: CommonDeleteArg) -> (r: Self)
        ensures
            r.month_spec() == month,
            r.common_arg_spec() == common_arg,
    {
        Self { month, common_arg }
    }

    pub fn month(&self) -> (r: &EditByMonthCommand)
        ensures
            *r == self.month_spec(),
    {
        &self.month
    }

    pub fn common_arg(&self) -> (r: &CommonDeleteArg)
        ensures
            *r == self.common_arg_spec(),
    {
        &self.common_arg
    }
}

/// Deleting a yearly journal.
#[derive(Debug, Clone, Copy, PartialEq, Eq, Structural)]
pub struct DeleteYearArg {
    year: u32,
    common_arg: CommonDeleteArg,
}

impl DeleteYearArg {
    pub closed spec fn year_spec(self) -> u32 {
        self.year
    }

    pub closed spec fn common_arg_spec(self) -> CommonDeleteArg {
        self.common_arg
    }

    pub fn new(year: u32, common_arg: CommonDeleteArg) -> (r: Self)
        ensures
            r.year_spec() == year,
            r.common_arg_spec() == common_arg,
    {
        Self { year, common_arg }
    }

    pub fn year(&self) -> (r: u32)
        ensures
            r == self.year_spec(),
    {
        self.year
    }

    pub fn common_arg(&self) -> (r: &CommonDeleteArg)
        ensures
            *r == self.common_arg_spec(),
    {
        &self.common_arg
    }
}

} // verus!
