//! The window's update function: one message in, the new session state and
//! the commands for the widgets out.

use vstd::prelude::*;
use crate::command::{Command, CommandView};
use crate::keys::{binding, binding_of, Binding, Key, ModifierType};
use crate::model::{Model, ModelView};
use crate::search::{
    activate_step, request_for, SearchController, SearchRequest, SearchRequestView,
};

verus! {

/// A message as a mathematical value.
pub enum MsgView {
    Bell,
    FocusIn,
    KeyPress((Key, ModifierType)),
    Quit,
    Search(Seq<char>),
    TitleChanged(Seq<char>),
}

/// What can happen to the window.
#[derive(Debug, PartialEq, Eq)]
pub enum Msg {
    /// The terminal rang its bell.
    Bell,
    /// The window got the input focus.
    FocusIn,
    /// A key was pressed: its symbol, and the modifiers held with it.
    KeyPress((Key, ModifierType)),
    /// The window was closed, or the terminal's child process ended.
    Quit,
    /// The search entry was submitted with this text.
    Search(String),
    /// The terminal reported a new title.
    TitleChanged(String),
}

impl View for Msg {
    type V = MsgView;

    open spec fn view(&self) -> MsgView {
        match self {
            Msg::Bell => MsgView::Bell,
            Msg::FocusIn => MsgView::FocusIn,
            Msg::KeyPress(press) => MsgView::KeyPress(*press),
            Msg::Quit => MsgView::Quit,
            Msg::Search(pattern) => MsgView::Search(pattern@),
            Msg::TitleChanged(title) => MsgView::TitleChanged(title@),
        }
    }
}

/// What one step leaves behind: the session state, the installed search,
/// and the commands issued, in the order in which they are to be carried out.
pub struct Outcome {
    pub model: ModelView,
    pub search: Option<SearchRequestView>,
    pub commands: Seq<CommandView>,
}

/// What a key press does, by its binding.
pub open spec fn key_step(
    model: ModelView,
    search: Option<SearchRequestView>,
    bound: Binding,
) -> Outcome {
    match bound {
        Binding::FindPrevious => Outcome { model, search, commands: seq![CommandView::FindPrevious] },
        Binding::FindNext => Outcome { model, search, commands: seq![CommandView::FindNext] },
        Binding::ActivateSearch => Outcome {
            model: ModelView { search_entry_visible: true, ..model },
            search,
            commands: seq![CommandView::FocusSearchEntry],
        },
        Binding::DismissSearch => Outcome {
            model: ModelView { search_entry_visible: false, entry_text: Seq::empty(), ..model },
            search: None,
            commands: seq![CommandView::FocusTerminal, CommandView::ClearSearch],
        },
        Binding::Unbound => Outcome { model, search, commands: Seq::empty() },
    }
}

/// The transition of the window on one message.
pub open spec fn step(
    model: ModelView,
    search: Option<SearchRequestView>,
    event: MsgView,
) -> Outcome {
    match event {
        MsgView::Bell => Outcome {
            model: ModelView { urgent: true, ..model },
            search,
            commands: Seq::empty(),
        },
        MsgView::FocusIn => Outcome {
            model: ModelView { urgent: false, ..model },
            search,
            commands: Seq::empty(),
        },
        MsgView::KeyPress((key, modifier)) => key_step(model, search, binding_of(key, modifier)),
        MsgView::Quit => Outcome { model, search, commands: seq![CommandView::Quit] },
        MsgView::Search(pattern) => match request_for(pattern) {
            None => Outcome { model, search, commands: Seq::empty() },
            Some(request) => Outcome {
                model,
                search,
                commands: seq![CommandView::InstallSearch(request)],
            },
        },
        MsgView::TitleChanged(title) => Outcome {
            model: ModelView { title, ..model },
            search,
            commands: Seq::empty(),
        },
    }
}

/// The transition of the window on the terminal's answer to a search
/// request: a request that compiled is the active search, and the terminal
/// is sent to the previous match, once.
pub open spec fn answer_step(
    search: Option<SearchRequestView>,
    request: SearchRequestView,
    compiled: bool,
) -> (Option<SearchRequestView>, Seq<CommandView>) {
    (
        activate_step(search, request, compiled),
        if compiled {
            seq![CommandView::FindPrevious]
        } else {
            Seq::empty()
        },
    )
}

/// The window's logic: it owns the search controller, and updates the
/// session state it is handed.
#[derive(Debug, PartialEq, Eq)]
pub struct Win {
    pub search: SearchController,
}

impl View for Win {
    type V = Option<SearchRequestView>;

    open spec fn view(&self) -> Option<SearchRequestView> {
        self.search@
    }
}

impl Win {
    /// A window with no search installed.
    pub fn new() -> (res: Win)
        ensures
            res@ is None,
    {
        Win { search: SearchController::new() }
    }

    /// The session state at the start of a session.
    pub fn model() -> (res: Model)
        ensures
            res@ == ModelView::initial(),
            res@.wf(),
    {
        Model {
            entry_text: String::new(),
            search_entry_visible: false,
            title: String::new(),
            urgent: false,
        }
    }

    /// Takes one message: updates the session state, and returns the
    /// commands to carry out, in order.
    pub fn update(&mut self, event: Msg, model: &mut Model) -> (commands: Vec<Command>)
        ensures
            step(old(model)@, old(self)@, event@) == (Outcome {
                model: final(model)@,
                search: final(self)@,
                commands: commands.deep_view(),
            }),
            old(model)@.wf() ==> final(model)@.wf(),
            event@ matches MsgView::KeyPress((key, modifier)) ==> (binding_of(key, modifier)
                is Unbound ==> *final(model) == *old(model) && *final(self) == *old(self)),
    {
        let mut commands: Vec<Command> = Vec::new();
        match event {
            Msg::Bell => {
                model.urgent = true;
            },
            Msg::FocusIn => {
                model.urgent = false;
            },
            Msg::KeyPress((key, modifier)) => {
                match binding(key, modifier) {
                    Binding::FindPrevious => {
                        commands.push(Command::FindPrevious);
                    },
                    Binding::FindNext => {
                        commands.push(Command::FindNext);
                    },
                    Binding::ActivateSearch => {
                        model.search_entry_visible = true;
                        commands.push(Command::FocusSearchEntry);
                    },
                    Binding::DismissSearch => {
                        model.search_entry_visible = false;
                        model.entry_text = String::new();
                        commands.push(Command::FocusTerminal);
                        if let Some(command) = self.search.search(None) {
                            commands.push(command);
                        }
                    },
                    Binding::Unbound => {},
                }
            },
            Msg::Quit => {
                commands.push(Command::Quit);
            },
            Msg::Search(pattern) => {
                if let Some(command) = self.search.search(Some(pattern)) {
                    commands.push(command);
                }
            },
            Msg::TitleChanged(title) => {
                model.title = title;
            },
        }
        assert(commands.deep_view() =~= step(old(model)@, old(self)@, event@).commands);
        commands
    }

    /// Takes the terminal's answer to an `InstallSearch` command: whether
    /// the request compiled and was installed. Returns the commands to carry
    /// out next.
    pub fn search_compiled(&mut self, request: SearchRequest, compiled: bool) -> (commands: Vec<
        Command,
    >)
        ensures
            (final(self)@, commands.deep_view()) == answer_step(old(self)@, request@, compiled),
    {
        let mut commands: Vec<Command> = Vec::new();
        if self.search.activate(request, compiled) {
            commands.push(Command::FindPrevious);
        }
        assert(commands.deep_view() =~= answer_step(old(self)@, request@, compiled).1);
        commands
    }
}

} // verus!
