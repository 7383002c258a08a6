use rterm::command::Command;
use rterm::search::{
    SearchController, SearchRequest, PCRE2_CASELESS, PCRE2_MULTILINE, PCRE2_NO_UTF_CHECK,
    PCRE2_UTF, SEARCH_FLAGS,
};

fn request(pattern: &str) -> SearchRequest {
    SearchRequest::new(pattern.to_string()).unwrap()
}

fn active_pattern(controller: &SearchController) -> Option<String> {
    controller.active().map(|request| request.pattern().clone())
}

#[test]
fn search_flags_are_the_four_options() {
    assert_eq!(PCRE2_CASELESS, 0x8);
    assert_eq!(PCRE2_MULTILINE, 0x400);
    assert_eq!(PCRE2_UTF, 0x80000);
    assert_eq!(PCRE2_NO_UTF_CHECK, 0x40000000);
    assert_eq!(SEARCH_FLAGS, 0x40080408);
    assert_eq!(
        SEARCH_FLAGS,
        PCRE2_CASELESS | PCRE2_MULTILINE | PCRE2_UTF | PCRE2_NO_UTF_CHECK
    );
}

#[test]
fn empty_text_makes_no_request() {
    assert_eq!(SearchRequest::new(String::new()), None);
}

#[test]
fn request_keeps_pattern_and_fixed_flags() {
    let made = SearchRequest::new("abc".to_string()).unwrap();
    assert_eq!(made.pattern(), "abc");
    assert_eq!(made.flags(), 0x40080408);
}

#[test]
fn request_takes_any_text_that_is_not_empty() {
    for text in [" ", "(", "a|b", "[", "\\", "é", "日本語", "a\nb"] {
        let made = SearchRequest::new(text.to_string()).unwrap();
        assert_eq!(made.pattern(), text);
        assert_eq!(made.flags(), SEARCH_FLAGS);
    }
}

#[test]
fn new_controller_is_inactive() {
    let controller = SearchController::new();
    assert!(!controller.is_active());
    assert_eq!(controller.active(), None);
}

#[test]
fn submitted_pattern_asks_for_install_and_keeps_state() {
    let mut controller = SearchController::new();
    let asked = controller.search(Some("abc".to_string()));
    assert_eq!(asked, Some(Command::InstallSearch(request("abc"))));
    assert!(!controller.is_active());
}

#[test]
fn submitted_empty_text_asks_nothing() {
    let mut controller = SearchController::new();
    assert_eq!(controller.search(Some(String::new())), None);
    assert!(!controller.is_active());

    assert!(controller.activate(request("abc"), true));
    assert_eq!(controller.search(Some(String::new())), None);
    assert_eq!(active_pattern(&controller), Some("abc".to_string()));
}

#[test]
fn compiled_request_becomes_active() {
    let mut controller = SearchController::new();
    assert!(controller.activate(request("abc"), true));
    assert!(controller.is_active());
    assert_eq!(controller.active(), Some(&request("abc")));
    assert_eq!(active_pattern(&controller), Some("abc".to_string()));
}

#[test]
fn refused_request_leaves_controller_inactive() {
    let mut controller = SearchController::new();
    assert!(!controller.activate(request("("), false));
    assert!(!controller.is_active());
    assert_eq!(controller.active(), None);
}

#[test]
fn refused_request_keeps_the_earlier_search() {
    let mut controller = SearchController::new();
    assert!(controller.activate(request("abc"), true));
    assert!(!controller.activate(request("("), false));
    assert_eq!(active_pattern(&controller), Some("abc".to_string()));
}

#[test]
fn compiled_request_replaces_the_earlier_search() {
    let mut controller = SearchController::new();
    assert!(controller.activate(request("abc"), true));
    assert!(controller.activate(request("def"), true));
    assert_eq!(active_pattern(&controller), Some("def".to_string()));
}

#[test]
fn dismissal_clears_the_search() {
    let mut controller = SearchController::new();
    assert!(controller.activate(request("abc"), true));
    assert_eq!(controller.search(None), Some(Command::ClearSearch));
    assert!(!controller.is_active());
    assert_eq!(controller.active(), None);
}

#[test]
fn dismissal_of_an_inactive_search_still_clears() {
    let mut controller = SearchController::new();
    assert_eq!(controller.search(None), Some(Command::ClearSearch));
    assert!(!controller.is_active());
}

#[test]
fn submission_does_not_touch_the_active_search() {
    let mut controller = SearchController::new();
    assert!(controller.activate(request("abc"), true));
    let asked = controller.search(Some("def".to_string()));
    assert_eq!(asked, Some(Command::InstallSearch(request("def"))));
    assert_eq!(active_pattern(&controller), Some("abc".to_string()));
}
