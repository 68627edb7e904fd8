use boop_executor::{ExecutionStatus, TextReplacement};

fn s(text: &str) -> String {
    text.to_string()
}

#[test]
fn no_effects_without_selection_is_noop() {
    let status = ExecutionStatus::new("some text", None);
    assert_eq!(status.into_replacement(), TextReplacement::NoOp);
}

#[test]
fn no_effects_with_selection_is_noop() {
    let status = ExecutionStatus::new("some text", Some("text"));
    assert_eq!(status.into_replacement(), TextReplacement::NoOp);
}

#[test]
fn start_of_call_without_selection() {
    let status = ExecutionStatus::new("hello", None);
    assert_eq!(status.full_text(), "hello");
    assert_eq!(status.text(), "hello");
    assert_eq!(status.selection(), "");
    assert_eq!(status.info(), None);
    assert_eq!(status.error(), None);
}

#[test]
fn start_of_call_with_selection() {
    let status = ExecutionStatus::new("hello world", Some("world"));
    assert_eq!(status.full_text(), "hello world");
    assert_eq!(status.text(), "world");
    assert_eq!(status.selection(), "world");
}

#[test]
fn repeated_calls_give_identical_status() {
    let mut status = ExecutionStatus::new("abc", Some("b"));
    status.reset("abc", Some("b"));
    let first = (
        status.full_text().clone(),
        status.text().clone(),
        status.selection().clone(),
        status.info().cloned(),
        status.error().cloned(),
    );
    status.insert(s("x"));
    status.post_error(s("oops"));
    status.set_text(s("B"));
    status.reset("abc", Some("b"));
    let second = (
        status.full_text().clone(),
        status.text().clone(),
        status.selection().clone(),
        status.info().cloned(),
        status.error().cloned(),
    );
    assert_eq!(first, second);
    assert_eq!(status.into_replacement(), TextReplacement::NoOp);
}

#[test]
fn insertion_wins_over_full_text() {
    let mut status = ExecutionStatus::new("abc", None);
    status.insert(s("x"));
    status.set_full_text(s("changed"));
    assert_eq!(status.into_replacement(), TextReplacement::Insert(vec![s("x")]));
}

#[test]
fn insertions_keep_call_order() {
    let mut status = ExecutionStatus::new("abc", None);
    status.insert(s("one"));
    status.insert(s("two"));
    status.insert(s("three"));
    assert_eq!(
        status.into_replacement(),
        TextReplacement::Insert(vec![s("one"), s("two"), s("three")])
    );
}

#[test]
fn full_text_wins_over_selection() {
    let mut status = ExecutionStatus::new("abc", Some("b"));
    status.set_selection(s("B"));
    status.set_full_text(s("full"));
    assert_eq!(status.into_replacement(), TextReplacement::Full(s("full")));
}

#[test]
fn last_full_text_write_counts() {
    let mut status = ExecutionStatus::new("abc", None);
    status.set_full_text(s("first"));
    status.set_full_text(s("second"));
    assert_eq!(status.full_text(), "second");
    assert_eq!(status.into_replacement(), TextReplacement::Full(s("second")));
}

#[test]
fn selection_wins_over_text() {
    let mut status = ExecutionStatus::new("abc", Some("b"));
    status.set_text(s("T"));
    status.set_selection(s("S"));
    assert_eq!(status.into_replacement(), TextReplacement::Selection(s("S")));
}

#[test]
fn text_with_selection_replaces_selection() {
    let mut status = ExecutionStatus::new("xx abc yy", Some("abc"));
    status.set_text(s("ABC"));
    assert_eq!(status.into_replacement(), TextReplacement::Selection(s("ABC")));
}

#[test]
fn text_without_selection_replaces_full() {
    let mut status = ExecutionStatus::new("abc", None);
    status.set_text(s("ABC"));
    assert_eq!(status.into_replacement(), TextReplacement::Full(s("ABC")));
}

#[test]
fn text_with_empty_selection_replaces_full() {
    let mut status = ExecutionStatus::new("abc", Some(""));
    status.set_text(s("ABC"));
    assert_eq!(status.into_replacement(), TextReplacement::Full(s("ABC")));
}

#[test]
fn writing_the_same_value_counts_as_change() {
    let mut status = ExecutionStatus::new("abc", None);
    status.set_full_text(s("abc"));
    assert_eq!(status.into_replacement(), TextReplacement::Full(s("abc")));
}

#[test]
fn posted_error_is_kept() {
    let mut status = ExecutionStatus::new("abc", None);
    status.post_error(s("bad"));
    assert_eq!(status.error(), Some(&s("bad")));
    assert_eq!(status.info(), None);
}

#[test]
fn last_posted_messages_win() {
    let mut status = ExecutionStatus::new("abc", None);
    status.post_info(s("one"));
    status.post_info(s("two"));
    status.post_error(s("e1"));
    status.post_error(s("e2"));
    assert_eq!(status.info(), Some(&s("two")));
    assert_eq!(status.error(), Some(&s("e2")));
    assert_eq!(status.into_replacement(), TextReplacement::NoOp);
}

#[test]
fn default_status_is_empty_call() {
    let status = ExecutionStatus::default();
    assert_eq!(status.full_text(), "");
    assert_eq!(status.text(), "");
    assert_eq!(status.selection(), "");
    assert_eq!(status.into_replacement(), TextReplacement::NoOp);
}
