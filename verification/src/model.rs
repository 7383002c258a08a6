//! The session state of one terminal window.

use vstd::prelude::*;

verus! {

/// The session state as a mathematical value.
pub struct ModelView {
    pub entry_text: Seq<char>,
    pub search_entry_visible: bool,
    pub title: Seq<char>,
    pub urgent: bool,
}

impl ModelView {
    /// The state a session starts in: nothing shown, nothing typed, no
    /// title yet, no bell pending.
    pub open spec fn initial() -> ModelView {
        ModelView {
            entry_text: Seq::empty(),
            search_entry_visible: false,
            title: Seq::empty(),
            urgent: false,
        }
    }

    /// A hidden search entry holds no text.
    pub open spec fn wf(self) -> bool {
        !self.search_entry_visible ==> self.entry_text.len() == 0
    }
}

/// What the window shows of one terminal session.
#[derive(Clone, Debug, PartialEq, Eq)]
pub struct Model {
    /// The text of the search entry.
    pub entry_text: String,
    /// Whether the search entry is shown.
    pub search_entry_visible: bool,
    /// The title the terminal last reported; empty until it reports one.
    pub title: String,
    /// Whether the bell rang since the window last got the focus.
    pub urgent: bool,
}

impl View for Model {
    type V = ModelView;

    open spec fn view(&self) -> ModelView {
        ModelView {
            entry_text: self.entry_text@,
            search_entry_visible: self.search_entry_visible,
            title: self.title@,
            urgent: self.urgent,
        }
    }
}

} // verus!
