//! The year-edit command's arguments.

use vstd::prelude::*;

use crate::edit_argument::EditCommonArgs;

verus! {

/// Which year's journal to open: a given year, or the running one.
#[derive(Debug)]
pub struct EditByYear {
    year: Option<u32>,
    option: EditCommonArgs,
}

impl EditByYear {
    pub closed spec fn year_opt(self) -> Option<u32> {
        self.year
    }

    pub closed spec fn option_spec(self) -> EditCommonArgs {
        self.option
    }

    pub fn new(year: Option<u32>, option: EditCommonArgs) -> (r: Self)
        ensures
            r.year_opt() == year,
    {
        Self { year, option }
    }

    pub fn year(&self) -> (r: Option<u32>)
        ensures
            r == self.year_opt(),
    {
        self.year
    }

    pub fn option(&self) -> (r: &EditCommonArgs)
        ensures
            *r == self.option_spec(),
    {
        &self.option
    }
}

} // verus!
