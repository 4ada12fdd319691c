//! Collapsing native-dialog outcomes into the values the command surface
//! returns, and the message used when a dialog's result channel fails.
use vstd::prelude::*;
use vstd::string::StringExecFns;

verus! {

/// The three outcomes of the unsaved-changes prompt. Dismissing the
/// prompt is kept apart from the "Don't Save" button until the command
/// boundary collapses both to a decline.
#[derive(Clone, Copy, Debug, PartialEq, Eq, Structural)]
pub enum ConfirmChoice {
    Save,
    Discard,
    Cancelled,
}

/// The boolean a confirmation prompt reports: true exactly for the
/// affirmative "Save" answer. Declining and dismissing both map to
/// false, so dismissal never counts as consent to discard-and-proceed.
pub fn confirm_choice_to_bool(choice: ConfirmChoice) -> (r: bool)
    ensures
        r == (choice is Save),
{
    match choice {
        ConfirmChoice::Save => true,
        ConfirmChoice::Discard => false,
        ConfirmChoice::Cancelled => false,
    }
}

/// The path list an open-file picker reports: a cancelled picker (no
/// selection) yields the empty list rather than a failure.
pub fn picked_paths(selection: Option<Vec<String>>) -> (r: Vec<String>)
    ensures
        selection matches Some(v) ==> r == v,
        selection is None ==> r@.len() == 0,
{
    match selection {
        Some(v) => v,
        None => Vec::new(),
    }
}

/// The error message reported when a dialog's result channel closes
/// before delivering a value.
pub fn channel_failure_message(detail: &str) -> (r: String)
    ensures
        r@ == "Failed to receive dialog result: "@ + detail@,
{
    "Failed to receive dialog result: ".to_owned().concat(detail)
}

} // verus!
