use wipple::diagnostics::{Error, Location, ReturnState, Stack, StackItem};
use wipple::text::decimal_string;

fn source(file: Option<&str>, line: usize, column: usize) -> Location {
    Location::Source { file: file.map(|f| f.to_string()), line, column }
}

#[test]
fn decimal_string_of_small_and_large_numbers() {
    assert_eq!(decimal_string(0), "0");
    assert_eq!(decimal_string(7), "7");
    assert_eq!(decimal_string(10), "10");
    assert_eq!(decimal_string(12345), "12345");
    assert_eq!(decimal_string(usize::MAX), usize::MAX.to_string());
}

#[test]
fn location_with_file_prints_file_line_column() {
    assert_eq!(source(Some("main.wpl"), 3, 14).to_string(), "main.wpl:3:14");
}

#[test]
fn location_without_file_prints_line_column() {
    assert_eq!(source(None, 12, 1).to_string(), "12:1");
}

#[test]
fn builtin_location_prints_its_label() {
    assert_eq!(Location::Builtin("prelude".to_string()).to_string(), "prelude");
}

#[test]
fn stack_item_prints_label_and_location() {
    let item = StackItem { label: "Evaluating list".to_string(), location: Some(source(None, 1, 2)) };
    assert_eq!(item.to_string(), "Evaluating list (1:2)");
    let bare = StackItem { label: "Evaluating list".to_string(), location: None };
    assert_eq!(bare.to_string(), "Evaluating list");
}

#[test]
fn new_stack_is_empty_and_records() {
    let stack = Stack::new();
    assert_eq!(stack.len(), 0);
    assert_eq!(stack.add("one".to_string()).add("two".to_string()).len(), 2);
    assert!(stack.items.is_empty());
    assert!(stack.recording_enabled());
    assert!(stack.queued_location().is_none());
    let default = Stack::default();
    assert!(default.items.is_empty());
    assert!(default.recording_enabled());
}

#[test]
fn add_returns_a_new_stack_and_keeps_the_old() {
    let stack = Stack::new();
    let deeper = stack.add("first".to_string());
    assert_eq!(stack.items.len(), 0);
    assert_eq!(deeper.items.len(), 1);
    assert_eq!(deeper.items[0].label, "first");
    assert!(deeper.items[0].location.is_none());
}

#[test]
fn queued_location_goes_to_the_next_frame_only() {
    let mut stack = Stack::new();
    stack.queue_location(&source(Some("a.wpl"), 2, 5));
    let one = stack.add("one".to_string());
    assert_eq!(one.items[0].to_string(), "one (a.wpl:2:5)");
    assert!(one.queued_location().is_none());
    let two = one.add("two".to_string());
    assert_eq!(two.items[1].to_string(), "two");
}

#[test]
fn frame_with_its_own_location_keeps_it_and_clears_the_queue() {
    let mut stack = Stack::new();
    stack.queue_location(&source(None, 9, 9));
    let one = stack.add_location("one".to_string(), &source(None, 1, 1));
    assert_eq!(one.items[0].to_string(), "one (1:1)");
    assert!(one.queued_location().is_none());
}

#[test]
fn frames_are_dropped_while_recording_is_off() {
    let mut stack = Stack::new().add("kept".to_string());
    stack.disable_recording();
    assert!(!stack.recording_enabled());
    let same = stack.add("dropped".to_string());
    assert_eq!(same.items.len(), 1);
    assert_eq!(same.items[0].label, "kept");
    assert!(!same.recording_enabled());
    let item = StackItem { label: "dropped too".to_string(), location: None };
    assert_eq!(stack.add_item(item).items.len(), 1);
}

#[test]
fn trace_lists_frames_from_innermost_to_outermost() {
    let stack = Stack::new()
        .add("outer".to_string())
        .add_location("middle".to_string(), &source(None, 4, 2))
        .add("inner".to_string());
    assert_eq!(stack.trace(""), "inner\nmiddle (4:2)\nouter");
    assert_eq!(Stack::new().trace("  "), "");
    assert_eq!(Stack::new().add("only".to_string()).trace("  "), "  only");
}

#[test]
fn error_prints_message_and_indented_frames() {
    let stack = Stack::new().add("outer".to_string()).add("inner".to_string());
    let error = Error::new("Cannot find trait", &stack);
    assert_eq!(error.message, "Cannot find trait");
    assert_eq!(error.stack.items.len(), 2);
    assert_eq!(error.to_string(), "Cannot find trait\n    inner\n    outer");
    assert_eq!(Error::new("alone", &Stack::new()).to_string(), "alone\n");
}

#[test]
fn error_carries_a_snapshot_of_the_stack() {
    let stack = Stack::new().add("then".to_string());
    let error = Error::new("failed", &stack);
    let later = stack.add("later".to_string());
    assert_eq!(later.items.len(), 2);
    assert_eq!(error.stack.items.len(), 1);
}

#[test]
fn stray_return_becomes_an_error() {
    let stack = Stack::new().add("top".to_string());
    let error = ReturnState::ReturnFromBlock.into_error(&stack);
    assert_eq!(error.message, "'return' outside block");
    assert_eq!(error.stack.items.len(), 1);
}

#[test]
fn stray_break_becomes_an_error() {
    let error = ReturnState::BreakOutOfLoop.into_error(&Stack::new());
    assert_eq!(error.message, "'break' outside loop");
}

#[test]
fn error_state_stays_itself() {
    let inner = Stack::new().add("inner".to_string());
    let state = ReturnState::Error(Error::new("broken", &inner));
    let error = state.into_error(&Stack::new());
    assert_eq!(error.message, "broken");
    assert_eq!(error.stack.items.len(), 1);
    let made = ReturnState::error("made", &inner).into_error(&Stack::new());
    assert_eq!(made.message, "made");
}
