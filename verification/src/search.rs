//! The search controller: turns a typed pattern into a search request for
//! the terminal, and keeps track of the request the terminal has installed.
//!
//! The terminal owns the compiled expression and the matches. The controller
//! decides what is asked of it, and is told whether the expression compiled.

use vstd::prelude::*;
use crate::command::{Command, CommandView};

verus! {

/// Compile option: letters match both cases.
pub const PCRE2_CASELESS: u32 = 0x0000_0008;

/// Compile option: `^` and `$` match at every line of the text.
pub const PCRE2_MULTILINE: u32 = 0x0000_0400;

/// Compile option: pattern and text are Unicode, not bytes.
pub const PCRE2_UTF: u32 = 0x0008_0000;

/// Compile option: the pattern is taken as valid Unicode, and not scanned
/// a second time.
pub const PCRE2_NO_UTF_CHECK: u32 = 0x4000_0000;

/// The options every search is compiled with.
pub const SEARCH_FLAGS: u32 = 0x4008_0408;

/// The search options are the four compile options together, and nothing
/// else.
pub proof fn lemma_search_flags()
    ensures
        SEARCH_FLAGS == PCRE2_CASELESS | PCRE2_MULTILINE | PCRE2_UTF | PCRE2_NO_UTF_CHECK,
        SEARCH_FLAGS & PCRE2_CASELESS == PCRE2_CASELESS,
        SEARCH_FLAGS & PCRE2_MULTILINE == PCRE2_MULTILINE,
        SEARCH_FLAGS & PCRE2_UTF == PCRE2_UTF,
        SEARCH_FLAGS & PCRE2_NO_UTF_CHECK == PCRE2_NO_UTF_CHECK,
{
    assert(0x4008_0408u32 == 0x0000_0008u32 | 0x0000_0400u32 | 0x0008_0000u32 | 0x4000_0000u32)
        by (bit_vector);
    assert(0x4008_0408u32 & 0x0000_0008u32 == 0x0000_0008u32) by (bit_vector);
    assert(0x4008_0408u32 & 0x0000_0400u32 == 0x0000_0400u32) by (bit_vector);
    assert(0x4008_0408u32 & 0x0008_0000u32 == 0x0008_0000u32) by (bit_vector);
    assert(0x4008_0408u32 & 0x4000_0000u32 == 0x4000_0000u32) by (bit_vector);
}

/// A search request as a mathematical value: the text to search for, and
/// the options it is compiled with.
pub struct SearchRequestView {
    pub pattern: Seq<char>,
    pub flags: u32,
}

impl SearchRequestView {
    /// A request has a pattern to search for, and carries the fixed options.
    pub open spec fn wf(self) -> bool {
        self.pattern.len() > 0 && self.flags == SEARCH_FLAGS
    }
}

/// The request that a typed pattern stands for: none for the empty text,
/// else the pattern with the fixed options.
pub open spec fn request_for(pattern: Seq<char>) -> Option<SearchRequestView> {
    if pattern.len() == 0 {
        None
    } else {
        Some(SearchRequestView { pattern, flags: SEARCH_FLAGS })
    }
}

/// A search for the terminal to compile and install.
#[derive(Debug, PartialEq, Eq)]
pub struct SearchRequest {
    pattern: String,
    flags: u32,
}

impl View for SearchRequest {
    type V = SearchRequestView;

    closed spec fn view(&self) -> SearchRequestView {
        SearchRequestView { pattern: self.pattern@, flags: self.flags }
    }
}

impl DeepView for SearchRequest {
    type V = SearchRequestView;

    open spec fn deep_view(&self) -> SearchRequestView {
        self@
    }
}

impl SearchRequest {
    /// Every request that exists is well formed.
    #[verifier::type_invariant]
    pub open spec fn inv(&self) -> bool {
        self@.wf()
    }

    /// The request for a typed pattern, or `None` for the empty text.
    pub fn new(pattern: String) -> (res: Option<SearchRequest>)
        ensures
            res.deep_view() == request_for(pattern@),
    {
        if pattern.as_str().is_empty() {
            None
        } else {
            Some(SearchRequest { pattern, flags: SEARCH_FLAGS })
        }
    }

    /// The text to search for.
    pub fn pattern(&self) -> (res: &String)
        ensures
            res@ == self@.pattern,
            res@.len() > 0,
    {
        proof {
            use_type_invariant(self);
        }
        &self.pattern
    }

    /// The options to compile the pattern with.
    pub fn flags(&self) -> (res: u32)
        ensures
            res == self@.flags,
            res == SEARCH_FLAGS,
    {
        proof {
            use_type_invariant(self);
        }
        self.flags
    }
}

/// What a submitted pattern, or a dismissal, does to the search.
///
/// `pattern` is `None` for a dismissal: the active request is dropped, and
/// the terminal is told to clear its search. The empty text is no dismissal:
/// nothing changes and nothing is asked. Any other text is handed to the
/// terminal to compile; the active request stays until the terminal answers.
pub open spec fn search_step(
    active: Option<SearchRequestView>,
    pattern: Option<Seq<char>>,
) -> (Option<SearchRequestView>, Option<CommandView>) {
    match pattern {
        None => (None, Some(CommandView::ClearSearch)),
        Some(text) => match request_for(text) {
            None => (active, None),
            Some(request) => (active, Some(CommandView::InstallSearch(request))),
        },
    }
}

/// What the terminal's answer to a request does to the search: a request
/// that compiled is the active one from now on, one that did not leaves the
/// search as it was.
pub open spec fn activate_step(
    active: Option<SearchRequestView>,
    request: SearchRequestView,
    compiled: bool,
) -> Option<SearchRequestView> {
    if compiled {
        Some(request)
    } else {
        active
    }
}

/// The search controller. It is inactive until a request compiles, and
/// active, with the latest request that compiled, until the search is
/// dismissed.
#[derive(Debug, PartialEq, Eq)]
pub struct SearchController {
    active: Option<SearchRequest>,
}

impl View for SearchController {
    type V = Option<SearchRequestView>;

    closed spec fn view(&self) -> Option<SearchRequestView> {
        self.active.deep_view()
    }
}

impl SearchController {
    /// A controller with no search installed.
    pub fn new() -> (res: SearchController)
        ensures
            res@ is None,
    {
        SearchController { active: None }
    }

    /// Whether a search is installed.
    pub fn is_active(&self) -> (res: bool)
        ensures
            res == (self@ is Some),
    {
        self.active.is_some()
    }

    /// The installed request, if there is one.
    pub fn active(&self) -> (res: Option<&SearchRequest>)
        ensures
            res.deep_view() == self@,
            self@ matches Some(request) ==> request.wf(),
    {
        match &self.active {
            Some(request) => {
                proof {
                    use_type_invariant(request);
                }
                Some(request)
            },
            None => None,
        }
    }

    /// Takes a submitted pattern (`Some`) or a dismissal (`None`), and says
    /// what to ask of the terminal.
    pub fn search(&mut self, pattern: Option<String>) -> (res: Option<Command>)
        ensures
            (final(self)@, res.deep_view()) == search_step(old(self)@, pattern.deep_view()),
    {
        match pattern {
            None => {
                self.active = None;
                Some(Command::ClearSearch)
            },
            Some(text) => match SearchRequest::new(text) {
                None => None,
                Some(request) => Some(Command::InstallSearch(request)),
            },
        }
    }

    /// Takes the terminal's answer to `request`: whether it compiled, and
    /// was installed in place of any earlier one. Returns whether a search
    /// was activated.
    pub fn activate(&mut self, request: SearchRequest, compiled: bool) -> (res: bool)
        ensures
            res == compiled,
            final(self)@ == activate_step(old(self)@, request@, compiled),
    {
        if compiled {
            self.active = Some(request);
        }
        compiled
    }
}

} // verus!
