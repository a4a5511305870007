use chat_stream::{ChatMessage, Elapsed, MessageContent, Sender, TokenRate, TurnUpdate};

#[test]
fn user_turn_is_fully_populated_and_closed() {
    let turn = ChatMessage::user("Hello", "now");
    assert!(turn.is_user());
    assert_eq!(turn.sender(), Sender::User);
    assert_eq!(turn.content(), &MessageContent::Text("Hello".to_string()));
    assert_eq!(turn.text(), Some("Hello"));
    assert_eq!(turn.timestamp(), "now");
    assert_eq!(turn.token_count(), 0);
    assert_eq!(turn.response_duration(), None);
    assert_eq!(turn.tokens_per_second(), None);
    assert!(!turn.is_open());
    assert!(!turn.is_placeholder());
}

#[test]
fn placeholder_is_an_empty_open_assistant_turn() {
    let turn = ChatMessage::placeholder("now");
    assert!(!turn.is_user());
    assert_eq!(turn.sender(), Sender::Assistant);
    assert_eq!(turn.text(), Some(""));
    assert_eq!(turn.token_count(), 0);
    assert_eq!(turn.response_duration(), None);
    assert!(turn.is_open());
    assert!(turn.is_placeholder());
}

#[test]
fn error_turn_is_closed() {
    let turn = ChatMessage::error("no model", "now");
    assert!(!turn.is_user());
    assert_eq!(turn.content(), &MessageContent::Error("no model".to_string()));
    assert_eq!(turn.text(), None);
    assert!(!turn.is_open());
    assert!(!turn.is_placeholder());
}

#[test]
fn delta_extends_the_text_and_counts() {
    let mut turn = ChatMessage::placeholder("now");
    assert!(turn.apply(TurnUpdate::Delta("Hi".to_string())));
    assert_eq!(turn.text(), Some("Hi"));
    assert_eq!(turn.token_count(), 1);
    assert!(turn.is_open());
    assert!(!turn.is_placeholder());
    assert!(turn.apply(TurnUpdate::Delta(" there".to_string())));
    assert_eq!(turn.text(), Some("Hi there"));
    assert_eq!(turn.token_count(), 2);
}

#[test]
fn empty_delta_is_counted_too() {
    let mut turn = ChatMessage::placeholder("now");
    assert!(turn.apply(TurnUpdate::Delta(String::new())));
    assert_eq!(turn.text(), Some(""));
    assert_eq!(turn.token_count(), 1);
    assert!(turn.is_placeholder());
}

#[test]
fn finish_sets_the_duration_once() {
    let mut turn = ChatMessage::placeholder("now");
    turn.apply(TurnUpdate::Delta("a".to_string()));
    assert!(turn.apply(TurnUpdate::Finish(Elapsed::from_millis(500))));
    assert_eq!(turn.response_duration(), Some(Elapsed::from_nanos(500_000_000)));
    assert!(!turn.is_open());
    assert!(!turn.apply(TurnUpdate::Finish(Elapsed::from_secs(9))));
    assert_eq!(turn.response_duration(), Some(Elapsed::from_nanos(500_000_000)));
}

#[test]
fn finished_turn_takes_no_more_text() {
    let mut turn = ChatMessage::placeholder("now");
    turn.apply(TurnUpdate::Delta("done".to_string()));
    turn.apply(TurnUpdate::Finish(Elapsed::from_secs(1)));
    let before = turn.clone();
    assert!(!turn.apply(TurnUpdate::Delta("more".to_string())));
    assert!(!turn.apply(TurnUpdate::Fail("late".to_string())));
    assert_eq!(turn, before);
}

#[test]
fn user_turn_takes_no_update() {
    let mut turn = ChatMessage::user("Hello", "now");
    let before = turn.clone();
    assert!(!turn.apply(TurnUpdate::Delta("x".to_string())));
    assert!(!turn.apply(TurnUpdate::Finish(Elapsed::from_secs(1))));
    assert!(!turn.apply(TurnUpdate::Fail("x".to_string())));
    assert_eq!(turn, before);
}

#[test]
fn failure_replaces_a_placeholder_only() {
    let mut waiting = ChatMessage::placeholder("then");
    assert!(waiting.apply(TurnUpdate::Fail("no model".to_string())));
    assert_eq!(waiting.content(), &MessageContent::Error("no model".to_string()));
    assert_eq!(waiting.timestamp(), "then");
    assert!(!waiting.is_user());

    let mut partial = ChatMessage::placeholder("then");
    partial.apply(TurnUpdate::Delta("half".to_string()));
    assert!(!partial.apply(TurnUpdate::Fail("broke".to_string())));
    assert_eq!(partial.text(), Some("half"));
}

#[test]
fn turn_with_other_content_is_closed() {
    let content = MessageContent::Image {
        data: "AAAA".to_string(),
        caption: Some("a cat".to_string()),
        analysis: None,
    };
    let mut turn = ChatMessage::new(content.clone(), false, "now".to_string());
    assert_eq!(turn.content(), &content);
    assert!(!turn.is_open());
    assert!(!turn.apply(TurnUpdate::Delta("x".to_string())));
    assert!(!turn.apply(TurnUpdate::Finish(Elapsed::from_secs(1))));
    assert_eq!(turn.content(), &content);
    assert_eq!(turn.token_count(), 0);
    assert_eq!(turn.tokens_per_second(), None);
}

#[test]
fn clone_keeps_every_field() {
    let mut turn = ChatMessage::placeholder("12:00");
    turn.apply(TurnUpdate::Delta("Hi".to_string()));
    turn.apply(TurnUpdate::Finish(Elapsed::from_secs(2)));
    let copy = turn.clone();
    assert_eq!(copy, turn);
    assert_eq!(copy.text(), Some("Hi"));
    assert_eq!(copy.timestamp(), "12:00");
    assert_eq!(copy.token_count(), 1);
    assert_eq!(copy.response_duration(), Some(Elapsed::from_secs(2)));
}

#[test]
fn content_clone_keeps_every_variant() {
    let all = vec![
        MessageContent::Text("t".to_string()),
        MessageContent::Image { data: "d".to_string(), caption: None, analysis: Some("a".to_string()) },
        MessageContent::Audio {
            data: "d".to_string(),
            duration: Some(Elapsed::from_millis(1500)),
            transcription: Some("words".to_string()),
        },
        MessageContent::File {
            name: "n".to_string(),
            data: "d".to_string(),
            file_type: "pdf".to_string(),
            processed_content: None,
        },
        MessageContent::GeneratedImage {
            data: "d".to_string(),
            prompt: "p".to_string(),
            model_used: "m".to_string(),
        },
        MessageContent::WebScraping {
            url: "u".to_string(),
            title: Some("t".to_string()),
            content: "c".to_string(),
            summary: None,
        },
        MessageContent::StructuredData { data: "{}".to_string(), schema: Some("s".to_string()) },
        MessageContent::Error("e".to_string()),
    ];
    for content in &all {
        assert_eq!(&content.clone(), content);
    }
}

#[test]
fn rate_is_none_until_the_stream_ends() {
    let mut turn = ChatMessage::placeholder("now");
    assert_eq!(turn.tokens_per_second(), None);
    turn.apply(TurnUpdate::Delta("a".to_string()));
    turn.apply(TurnUpdate::Delta("b".to_string()));
    assert_eq!(turn.tokens_per_second(), None);
    turn.apply(TurnUpdate::Finish(Elapsed::from_secs(4)));
    assert_eq!(
        turn.tokens_per_second(),
        Some(TokenRate { tokens: 2, elapsed: Elapsed::from_secs(4) })
    );
}

#[test]
fn three_tokens_in_two_seconds_are_one_and_a_half_per_second() {
    let rate = TokenRate { tokens: 3, elapsed: Elapsed::from_secs(2) };
    assert_eq!(rate.milli_tokens_per_second(), Some(1500));
}

#[test]
fn rate_rounds_down_to_the_thousandth() {
    let third = TokenRate { tokens: 1, elapsed: Elapsed::from_secs(3) };
    assert_eq!(third.milli_tokens_per_second(), Some(333));
    let two_thirds = TokenRate { tokens: 2, elapsed: Elapsed::from_secs(3) };
    assert_eq!(two_thirds.milli_tokens_per_second(), Some(666));
    let slow = TokenRate { tokens: 1, elapsed: Elapsed::from_secs(1001) };
    assert_eq!(slow.milli_tokens_per_second(), Some(0));
}

#[test]
fn rate_of_no_tokens_is_zero() {
    let rate = TokenRate { tokens: 0, elapsed: Elapsed::from_millis(250) };
    assert_eq!(rate.milli_tokens_per_second(), Some(0));
}

#[test]
fn rate_over_no_time_is_undefined() {
    let rate = TokenRate { tokens: 5, elapsed: Elapsed::from_nanos(0) };
    assert_eq!(rate.milli_tokens_per_second(), None);
}

#[test]
fn rate_of_the_largest_count_fits() {
    let rate = TokenRate { tokens: u64::MAX, elapsed: Elapsed::from_nanos(1) };
    assert_eq!(
        rate.milli_tokens_per_second(),
        Some(u64::MAX as u128 * 1_000_000_000_000)
    );
}

#[test]
fn elapsed_is_kept_in_nanoseconds() {
    assert_eq!(Elapsed::from_secs(2).as_nanos(), 2_000_000_000);
    assert_eq!(Elapsed::from_millis(1500).as_nanos(), 1_500_000_000);
    assert_eq!(Elapsed::from_nanos(7).as_nanos(), 7);
    assert_eq!(Elapsed::from_secs(u64::MAX).as_nanos(), u64::MAX as u128 * 1_000_000_000);
    assert!(Elapsed::from_nanos(0).is_zero());
    assert!(!Elapsed::from_nanos(1).is_zero());
}

#[test]
fn sender_colours() {
    assert_eq!(Sender::Assistant.background_color(), "bg-gray-200");
    assert_eq!(Sender::User.background_color(), "bg-[#2B2A28]");
    assert_eq!(Sender::Assistant.text_color(), "text-gray-800");
    assert_eq!(Sender::User.text_color(), "text-white");
    assert_eq!(Sender::Assistant.token_color(), "text-gray-500");
    assert_eq!(Sender::User.token_color(), "text-gray-400");
}
