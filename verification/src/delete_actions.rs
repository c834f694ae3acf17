//! The outcome of a deletion, and the decision of what a deletion attempt
//! should do given what the application found on disk and what the user
//! answered.  Checking for the file and removing it is the application's
//! part.

use vstd::prelude::*;

verus! {

/// What came of a deletion attempt.
#[derive(Debug, Clone, Copy, PartialEq, Eq, Structural)]
pub enum DeletionResult {
    /// There was no journal to be found for deletion.
    NoJournalFound,
    /// The user cancelled the deletion when asked for confirmation.
    NoConfirmation,
    /// The user confirmed and the journal was deleted.
    Deleted,
}

/// What a deletion attempt must do next.
#[derive(Debug, Clone, Copy, PartialEq, Eq, Structural)]
pub enum DeletionStep {
    /// Nothing exists under the journal's path.
    ReportNothingFound,
    /// A journal exists and confirmation is still needed before removing.
    AskForConfirmation,
    /// Remove the journal file now.
    RemoveFile,
    /// The user declined; report the cancelled deletion.
    ReportCancelled,
    /// Something that is not a file sits at the journal's path.
    FailOnNonFile,
}

/// Decides a deletion attempt from what the journal's path holds: nothing,
/// a directory, or a file — and whether confirmation was requested or
/// already given.
pub fn decide_deletion(exists: bool, is_file: bool, skip_confirmation: bool, confirmed: Option<
    bool,
>) -> (r: DeletionStep)
    ensures
        !exists ==> r == DeletionStep::ReportNothingFound,
        exists && !is_file ==> r == DeletionStep::FailOnNonFile,
        exists && is_file && (skip_confirmation || confirmed == Some(true)) ==> r
            == DeletionStep::RemoveFile,
        exists && is_file && !skip_confirmation && confirmed is None ==> r
            == DeletionStep::AskForConfirmation,
        exists && is_file && !skip_confirmation && confirmed == Some(false) ==> r
            == DeletionStep::ReportCancelled,
{
    if !exists {
        DeletionStep::ReportNothingFound
    } else if !is_file {
        DeletionStep::FailOnNonFile
    } else if skip_confirmation {
        DeletionStep::RemoveFile
    } else {
        match confirmed {
            Some(true) => DeletionStep::RemoveFile,
            Some(false) => DeletionStep::ReportCancelled,
            None => DeletionStep::AskForConfirmation,
        }
    }
}

} // verus!
