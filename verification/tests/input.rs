use chat_stream::{InputCapture, TextInput, TextInputProps};

#[test]
fn new_line_is_empty() {
    let input = InputCapture::new();
    assert_eq!(input.value(), "");
    assert!(!input.can_send());
}

#[test]
fn edit_replaces_the_buffer() {
    let mut input = InputCapture::new();
    assert!(input.edit("Hel", false));
    assert!(input.edit("Hello", false));
    assert_eq!(input.value(), "Hello");
    assert!(input.can_send());
}

#[test]
fn edit_while_in_flight_is_dropped() {
    let mut input = InputCapture::new();
    input.edit("kept", false);
    assert!(!input.edit("lost", true));
    assert_eq!(input.value(), "kept");
}

#[test]
fn submission_is_trimmed_and_clears_the_line() {
    let mut input = InputCapture::new();
    input.edit("  Hello world \n", false);
    assert_eq!(input.take_submission(false), Some("Hello world".to_string()));
    assert_eq!(input.value(), "");
    assert_eq!(input.take_submission(false), None);
}

#[test]
fn blank_line_submits_nothing_and_stays() {
    let mut input = InputCapture::new();
    assert_eq!(input.take_submission(false), None);
    input.edit("   ", false);
    assert!(!input.can_send());
    assert_eq!(input.take_submission(false), None);
    assert_eq!(input.value(), "   ");
}

#[test]
fn submission_while_in_flight_stays_in_the_line() {
    let mut input = InputCapture::new();
    input.edit("wait", false);
    assert_eq!(input.take_submission(true), None);
    assert_eq!(input.value(), "wait");
}

#[test]
fn default_placeholder() {
    assert_eq!(TextInputProps::default().placeholder, "Ask anything...");
}

#[test]
fn input_line_shows_send_only_with_something_to_send() {
    let mut input = InputCapture::new();
    let empty = TextInput(TextInputProps::default(), &input);
    assert_eq!(empty.placeholder, "Ask anything...");
    assert_eq!(empty.value, "");
    assert!(!empty.show_send);
    input.edit("  ", false);
    assert!(!TextInput(TextInputProps::default(), &input).show_send);
    input.edit(" x ", false);
    let typed = TextInput(TextInputProps { placeholder: "Type a message...".to_string() }, &input);
    assert_eq!(typed.placeholder, "Type a message...");
    assert_eq!(typed.value, " x ");
    assert!(typed.show_send);
}
