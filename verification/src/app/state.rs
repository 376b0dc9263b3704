//! What the interface shows besides the pages.

use vstd::prelude::*;
use vstd::string::StringExecFns;

verus! {

/// The ephemeral fields of the display.
#[derive(Clone, Debug, PartialEq, Eq)]
pub struct AppState {
    /// The status label.
    pub block_name: String,
}

impl AppState {
    /// The state at startup: the label is a question mark.
    pub fn new() -> (state: Self)
        ensures
            state.block_name@ == "?"@,
    {
        AppState { block_name: String::from_str("?") }
    }

    /// Stores `text` as the status label.
    pub fn set_label(&mut self, text: String)
        ensures
            final(self).block_name == text,
    {
        self.block_name = text;
    }
}

} // verus!
