//! What holds of the window's transitions, whatever the state and the
//! messages.

use vstd::prelude::*;
use crate::command::CommandView;
use crate::keys::{binding_of, is_bound_key, Key, ModifierType, KEY_ESCAPE, NO_MODIFIER};
use crate::keys::{lemma_escape_alone_dismisses, lemma_other_keys_unbound};
use crate::model::ModelView;
use crate::search::{request_for, SearchRequestView};
use crate::win::{answer_step, step, MsgView, Outcome};

verus! {

/// The window after a sequence of messages, taken in order, with the
/// commands of all of them.
pub open spec fn run(
    model: ModelView,
    search: Option<SearchRequestView>,
    events: Seq<MsgView>,
) -> Outcome
    decreases events.len(),
{
    if events.len() == 0 {
        Outcome { model, search, commands: Seq::empty() }
    } else {
        let before = run(model, search, events.drop_last());
        let last = step(before.model, before.search, events.last());
        Outcome {
            model: last.model,
            search: last.search,
            commands: before.commands + last.commands,
        }
    }
}

/// Whether a message is one of the two that touch the urgency flag.
pub open spec fn touches_urgency(event: MsgView) -> bool {
    event is Bell || event is FocusIn
}

/// The installed search is either absent or well formed.
pub open spec fn search_wf(search: Option<SearchRequestView>) -> bool {
    search matches Some(request) ==> request.wf()
}

/// How often a command occurs in a sequence of commands.
pub open spec fn occurrences(commands: Seq<CommandView>, command: CommandView) -> nat {
    commands.filter(|c: CommandView| c == command).len()
}

/// A message that is neither the bell nor a focus gain leaves the urgency
/// flag as it is.
pub proof fn law_urgency_untouched_by_others(
    model: ModelView,
    search: Option<SearchRequestView>,
    event: MsgView,
)
    requires
        !touches_urgency(event),
    ensures
        step(model, search, event).model.urgent == model.urgent,
{
}

/// After any sequence of messages, the window is urgent if and only if the
/// latest message among bells and focus gains was a bell. `latest` is the
/// place of that message in the sequence.
pub proof fn law_urgency_follows_latest(
    model: ModelView,
    search: Option<SearchRequestView>,
    events: Seq<MsgView>,
    latest: int,
)
    requires
        0 <= latest < events.len(),
        touches_urgency(events[latest]),
        forall|j: int| latest < j < events.len() ==> !touches_urgency(#[trigger] events[j]),
    ensures
        run(model, search, events).model.urgent == (events[latest] is Bell),
    decreases events.len(),
{
    let before = run(model, search, events.drop_last());
    if latest == events.len() - 1 {
    } else {
        let earlier = events.drop_last();
        assert(earlier[latest] == events[latest]);
        assert forall|j: int| latest < j < earlier.len() implies !touches_urgency(
            #[trigger] earlier[j],
        ) by {
            assert(earlier[j] == events[j]);
        }
        law_urgency_follows_latest(model, search, earlier, latest);
        law_urgency_untouched_by_others(before.model, before.search, events.last());
    }
}

/// After a sequence of bells and focus gains, the window is urgent if and
/// only if the last of them was a bell. After the empty sequence the flag is
/// what it was.
pub proof fn law_urgency_of_bells_and_focus(
    model: ModelView,
    search: Option<SearchRequestView>,
    events: Seq<MsgView>,
)
    requires
        forall|i: int| 0 <= i < events.len() ==> touches_urgency(#[trigger] events[i]),
    ensures
        events.len() > 0 ==> (run(model, search, events).model.urgent <==> events.last() is Bell),
        events.len() == 0 ==> run(model, search, events).model.urgent == model.urgent,
{
    if events.len() > 0 {
        law_urgency_follows_latest(model, search, events, events.len() - 1);
    }
}

/// Escape with no modifier hides the search entry, empties its text and
/// drops the installed search, whatever the state was; the rest of the
/// session state stays. A second Escape right after changes nothing more.
pub proof fn law_escape_dismisses(model: ModelView, search: Option<SearchRequestView>)
    ensures
        ({
            let once = step(model, search, MsgView::KeyPress((KEY_ESCAPE, NO_MODIFIER)));
            let twice = step(once.model, once.search, MsgView::KeyPress((KEY_ESCAPE, NO_MODIFIER)));
            &&& !once.model.search_entry_visible
            &&& once.model.entry_text == Seq::<char>::empty()
            &&& once.model.title == model.title
            &&& once.model.urgent == model.urgent
            &&& once.search is None
            &&& once.commands == seq![CommandView::FocusTerminal, CommandView::ClearSearch]
            &&& twice.model == once.model
            &&& twice.search == once.search
        }),
{
    lemma_escape_alone_dismisses();
}

/// Submitting the empty text changes nothing and asks nothing of the
/// terminal: no search is installed, and no match is gone to.
pub proof fn law_empty_search_is_inert(model: ModelView, search: Option<SearchRequestView>)
    ensures
        step(model, search, MsgView::Search(Seq::empty())) == (Outcome {
            model,
            search,
            commands: Seq::empty(),
        }),
{
}

/// Submitting a text that is not empty asks the terminal for exactly one
/// thing: to install the request for that text, under the fixed options.
/// Once the terminal answers that it compiled, that request is the active
/// search, and the terminal is sent to the previous match exactly once. If
/// it did not compile, the search stays as it was and no match is gone to.
pub proof fn law_search_navigates_once(
    model: ModelView,
    search: Option<SearchRequestView>,
    pattern: Seq<char>,
)
    requires
        pattern.len() > 0,
    ensures
        ({
            let request = request_for(pattern)->Some_0;
            let submitted = step(model, search, MsgView::Search(pattern));
            let accepted = answer_step(submitted.search, request, true);
            let refused = answer_step(submitted.search, request, false);
            &&& request_for(pattern) is Some
            &&& request.pattern == pattern
            &&& request.wf()
            &&& submitted.model == model
            &&& submitted.search == search
            &&& submitted.commands == seq![CommandView::InstallSearch(request)]
            &&& accepted.0 == Some(request)
            &&& accepted.1 == seq![CommandView::FindPrevious]
            &&& occurrences(submitted.commands + accepted.1, CommandView::FindPrevious) == 1
            &&& refused.0 == search
            &&& refused.1 == Seq::<CommandView>::empty()
            &&& occurrences(submitted.commands + refused.1, CommandView::FindPrevious) == 0
        }),
{
    let request = request_for(pattern)->Some_0;
    let install = seq![CommandView::InstallSearch(request)];
    reveal_with_fuel(Seq::filter, 3);
    assert((install + seq![CommandView::FindPrevious]).drop_last() =~= install);
    assert(install + Seq::<CommandView>::empty() =~= install);
    assert(install.drop_last() =~= Seq::<CommandView>::empty());
}

/// A title change sets the title and nothing else, and issues no command.
/// The same title a second time leaves the state as the first left it.
pub proof fn law_title_change_idempotent(
    model: ModelView,
    search: Option<SearchRequestView>,
    title: Seq<char>,
)
    ensures
        ({
            let once = step(model, search, MsgView::TitleChanged(title));
            let twice = step(once.model, once.search, MsgView::TitleChanged(title));
            &&& once.model == ModelView { title, ..model }
            &&& once.search == search
            &&& once.commands == Seq::<CommandView>::empty()
            &&& twice == once
        }),
{
}

/// A key press whose key is none of the four bound ones changes nothing and
/// issues no command, whatever the modifiers.
pub proof fn law_other_keys_change_nothing(
    model: ModelView,
    search: Option<SearchRequestView>,
    key: Key,
    modifier: ModifierType,
)
    requires
        !is_bound_key(key),
    ensures
        step(model, search, MsgView::KeyPress((key, modifier))) == (Outcome {
            model,
            search,
            commands: Seq::empty(),
        }),
{
    lemma_other_keys_unbound(key, modifier);
}

/// Only two bindings change the session state: the one that shows the
/// search entry and the one that dismisses it. Every other key press leaves
/// the session state and the installed search as they were.
pub proof fn law_key_press_frame(
    model: ModelView,
    search: Option<SearchRequestView>,
    key: Key,
    modifier: ModifierType,
)
    requires
        !(binding_of(key, modifier) is ActivateSearch),
        !(binding_of(key, modifier) is DismissSearch),
    ensures
        step(model, search, MsgView::KeyPress((key, modifier))).model == model,
        step(model, search, MsgView::KeyPress((key, modifier))).search == search,
{
}

/// Every transition keeps a well-formed state well formed.
pub proof fn law_step_keeps_wf(
    model: ModelView,
    search: Option<SearchRequestView>,
    event: MsgView,
)
    requires
        model.wf(),
        search_wf(search),
    ensures
        step(model, search, event).model.wf(),
        search_wf(step(model, search, event).search),
{
}

/// The terminal's answer to a well-formed request keeps the installed
/// search well formed.
pub proof fn law_answer_keeps_wf(
    search: Option<SearchRequestView>,
    request: SearchRequestView,
    compiled: bool,
)
    requires
        search_wf(search),
        request.wf(),
    ensures
        search_wf(answer_step(search, request, compiled).0),
{
}

/// Whether a message is the key press that dismisses the search.
pub open spec fn dismisses(event: MsgView) -> bool {
    event matches MsgView::KeyPress((key, modifier)) && binding_of(key, modifier) is DismissSearch
}

/// Of all messages only the dismissal changes the installed search, and it
/// removes it. A request takes its place only by the terminal's answer.
pub proof fn law_search_changes_only_on_dismissal(
    model: ModelView,
    search: Option<SearchRequestView>,
    event: MsgView,
)
    ensures
        dismisses(event) ==> step(model, search, event).search is None,
        !dismisses(event) ==> step(model, search, event).search == search,
{
}

} // verus!
