//! Fixed pieces of the on-disk name formats and of the placeholder scheme.

use vstd::prelude::*;

verus! {

/// File extension of journal entries.
pub const MD_EXT: &'static str = "md";

/// Separator between the numeric fields of a journal name.
pub const DIGIT_SEP: char = '_';

/// Placeholder variable for which a journal inserts its day.
pub const DAY_VAR_NAME: &'static str = "DAY_JOURNAL";

/// Placeholder variable for which a journal inserts its month.
pub const MONTH_VAR_NAME: &'static str = "MONTH_JOURNAL";

/// Placeholder variable for which a journal inserts its year.
pub const YEAR_VAR_NAME: &'static str = "YEAR_JOURNAL";

/// Marks a template path as relative to the config folder.
pub const SIGN_FOR_FROM_CONF_FOLDER: char = '+';

} // verus!
