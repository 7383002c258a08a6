use rterm::command::Command;
use rterm::keys::{CONTROL_MASK, KEY_ESCAPE, KEY_SLASH, NO_MODIFIER};
use rterm::model::Model;
use rterm::win::{Msg, Win};

/// Carries out one message as the event loop would, against a terminal
/// that compiles every pattern but those in `malformed`. Returns every
/// command that was issued, in order.
fn dispatch(win: &mut Win, model: &mut Model, event: Msg, malformed: &[&str]) -> Vec<String> {
    let mut log = Vec::new();
    let mut queue = win.update(event, model);
    while !queue.is_empty() {
        match queue.remove(0) {
            Command::InstallSearch(request) => {
                log.push(format!("install {} {:#x}", request.pattern(), request.flags()));
                let compiled = !malformed.contains(&request.pattern().as_str());
                let mut next = win.search_compiled(request, compiled);
                next.append(&mut queue);
                queue = next;
            },
            Command::FindPrevious => log.push("previous".to_string()),
            Command::FindNext => log.push("next".to_string()),
            Command::FocusSearchEntry => log.push("focus entry".to_string()),
            Command::FocusTerminal => log.push("focus terminal".to_string()),
            Command::ClearSearch => log.push("clear".to_string()),
            Command::Quit => log.push("quit".to_string()),
        }
    }
    log
}

#[test]
fn search_session_from_start_to_dismissal() {
    let mut win = Win::new();
    let mut model = Win::model();
    assert_eq!(
        model,
        Model {
            title: String::new(),
            urgent: false,
            search_entry_visible: false,
            entry_text: String::new(),
        }
    );

    let log = dispatch(&mut win, &mut model, Msg::KeyPress((KEY_SLASH, CONTROL_MASK)), &[]);
    assert!(model.search_entry_visible);
    assert_eq!(log, vec!["focus entry"]);

    let log = dispatch(&mut win, &mut model, Msg::Search("abc".to_string()), &[]);
    assert!(win.search.is_active());
    assert_eq!(win.search.active().unwrap().pattern(), "abc");
    assert_eq!(log, vec!["install abc 0x40080408", "previous"]);
    assert_eq!(log.iter().filter(|entry| *entry == "previous").count(), 1);
    assert!(model.search_entry_visible);

    let log = dispatch(&mut win, &mut model, Msg::KeyPress((KEY_ESCAPE, NO_MODIFIER)), &[]);
    assert!(!model.search_entry_visible);
    assert_eq!(model.entry_text, "");
    assert_eq!(log, vec!["focus terminal", "clear"]);
    assert!(!win.search.is_active());
    assert_eq!(model, Win::model());
}

#[test]
fn malformed_pattern_is_reported_by_silence() {
    let mut win = Win::new();
    let mut model = Win::model();
    dispatch(&mut win, &mut model, Msg::KeyPress((KEY_SLASH, CONTROL_MASK)), &["("]);

    let log = dispatch(&mut win, &mut model, Msg::Search("(".to_string()), &["("]);
    assert_eq!(log, vec!["install ( 0x40080408"]);
    assert!(!win.search.is_active());

    let log = dispatch(&mut win, &mut model, Msg::Search("abc".to_string()), &["("]);
    assert_eq!(log, vec!["install abc 0x40080408", "previous"]);
    assert_eq!(win.search.active().unwrap().pattern(), "abc");

    let log = dispatch(&mut win, &mut model, Msg::Search("(".to_string()), &["("]);
    assert_eq!(log, vec!["install ( 0x40080408"]);
    assert_eq!(win.search.active().unwrap().pattern(), "abc");
}

#[test]
fn empty_submission_reaches_no_terminal() {
    let mut win = Win::new();
    let mut model = Win::model();
    let log = dispatch(&mut win, &mut model, Msg::Search(String::new()), &[]);
    assert!(log.is_empty());
    assert!(!win.search.is_active());
    assert_eq!(model, Win::model());
}

#[test]
fn each_successful_submission_navigates_once() {
    let mut win = Win::new();
    let mut model = Win::model();
    let mut previous = 0;
    for pattern in ["a", "b", "c"] {
        let log = dispatch(&mut win, &mut model, Msg::Search(pattern.to_string()), &[]);
        previous += log.iter().filter(|entry| *entry == "previous").count();
        assert_eq!(win.search.active().unwrap().pattern(), pattern);
    }
    assert_eq!(previous, 3);
}
