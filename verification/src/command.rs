//! The commands the window's logic issues to the widgets around it.

use vstd::prelude::*;
use crate::search::{SearchRequest, SearchRequestView};

verus! {

/// A command as a mathematical value.
pub enum CommandView {
    FindPrevious,
    FindNext,
    FocusSearchEntry,
    FocusTerminal,
    InstallSearch(SearchRequestView),
    ClearSearch,
    Quit,
}

/// One thing for the caller to do to a widget, or to the event loop.
#[derive(Debug, PartialEq, Eq)]
pub enum Command {
    /// Move the terminal to the previous match of its search.
    FindPrevious,
    /// Move the terminal to the next match of its search.
    FindNext,
    /// Give the input focus to the search entry.
    FocusSearchEntry,
    /// Give the input focus back to the terminal.
    FocusTerminal,
    /// Compile the request and, if it compiles, install it as the
    /// terminal's only search; then report back whether it compiled.
    InstallSearch(SearchRequest),
    /// Remove the terminal's search.
    ClearSearch,
    /// Leave the event loop.
    Quit,
}

impl View for Command {
    type V = CommandView;

    open spec fn view(&self) -> CommandView {
        match self {
            Command::FindPrevious => CommandView::FindPrevious,
            Command::FindNext => CommandView::FindNext,
            Command::FocusSearchEntry => CommandView::FocusSearchEntry,
            Command::FocusTerminal => CommandView::FocusTerminal,
            Command::InstallSearch(request) => CommandView::InstallSearch(request@),
            Command::ClearSearch => CommandView::ClearSearch,
            Command::Quit => CommandView::Quit,
        }
    }
}

impl DeepView for Command {
    type V = CommandView;

    open spec fn deep_view(&self) -> CommandView {
        self@
    }
}

} // verus!
