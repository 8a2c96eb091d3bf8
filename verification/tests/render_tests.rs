use nostr_sdk::prelude::EventId;
use nostr_sdk::prelude::ToBech32;
use nostr_shell::command::Commands;
use nostr_shell::command::parse_line;
use nostr_shell::dispatch::Plan;
use nostr_shell::dispatch::handle_command;
use nostr_shell::numfmt::parse_u64;
use nostr_shell::numfmt::u64_to_string;
use nostr_shell::render::EventSummary;
use nostr_shell::render::format_event;
use nostr_shell::render::render_delete_ok;
use nostr_shell::render::render_failure;
use nostr_shell::render::render_fetch_by_id;
use nostr_shell::render::render_recent;
use nostr_shell::render::render_recent_header;
use nostr_shell::tokenize::tokenize;

fn summary(id: &str, created_at: u64, content: &str) -> EventSummary {
    EventSummary { id: String::from(id), created_at, content: String::from(content) }
}

#[test]
fn format_event_shows_id_time_and_message() {
    let e = summary("note1abc", 1681442580, "hello");
    assert_eq!(
        format_event(&e),
        "Event ID: note1abc\nCreated: 1681442580\nMessage: hello"
    );
}

#[test]
fn format_event_truncates_long_content_to_one_hundred_chars() {
    let long = "x".repeat(150);
    let e = summary("note1abc", 7, &long);
    let expected = format!("Event ID: note1abc\nCreated: 7\nMessage: {}", "x".repeat(100));
    assert_eq!(format_event(&e), expected);
}

#[test]
fn fetch_by_id_renders_not_found_on_an_empty_result() {
    assert_eq!(render_fetch_by_id(&Vec::new()), "Event not found");
}

#[test]
fn fetch_by_id_renders_only_the_first_match() {
    let events = vec![summary("note1aaa", 1, "first"), summary("note1bbb", 2, "second")];
    assert_eq!(
        render_fetch_by_id(&events),
        "Event ID: note1aaa\nCreated: 1\nMessage: first"
    );
}

#[test]
fn recent_listing_renders_count_then_each_event_in_order() {
    let events = vec![summary("note1aaa", 1, "first"), summary("note1bbb", 2, "second")];
    assert_eq!(
        render_recent(&events),
        "Found 2 events\
         \n\nEvent ID: note1aaa\nCreated: 1\nMessage: first\
         \n\nEvent ID: note1bbb\nCreated: 2\nMessage: second"
    );
}

#[test]
fn recent_header_names_the_limit() {
    assert_eq!(render_recent_header(10), "Getting the last 10 messages");
}

#[test]
fn delete_confirmation_includes_the_id() {
    let id_text = EventId::from_slice(&[2u8; 32]).unwrap().to_bech32().unwrap();
    let cmd = parse_line(&format!("rm {}", id_text)).unwrap();
    assert!(matches!(cmd, Commands::Rm { .. }));
    match handle_command(cmd, &String::from("npub1exampleauthorkey")) {
        Plan::Delete { id, .. } => {
            assert_eq!(render_delete_ok(&id), format!("Deleted event {}", id_text));
        }
        other => panic!("expected a delete plan, got {:?}", other),
    }
}

#[test]
fn failure_text_is_flattened_to_one_line() {
    assert_eq!(render_failure("relay timed out"), "relay timed out");
    assert_eq!(render_failure("a\nb\r\nc"), "a b  c");
    assert!(!render_failure("x\ny\nz").contains('\n'));
}

#[test]
fn decimal_rendering_is_exact() {
    assert_eq!(u64_to_string(0), "0");
    assert_eq!(u64_to_string(10), "10");
    assert_eq!(u64_to_string(1234567890), "1234567890");
    assert_eq!(u64_to_string(u64::MAX), "18446744073709551615");
}

#[test]
fn decimal_parsing_is_exact() {
    assert_eq!(parse_u64("0"), Some(0));
    assert_eq!(parse_u64("18446744073709551615"), Some(u64::MAX));
    assert_eq!(parse_u64("18446744073709551616"), None);
    assert_eq!(parse_u64(""), None);
    assert_eq!(parse_u64("12a"), None);
    assert_eq!(parse_u64("-1"), None);
}

#[test]
fn tokenizing_strips_quotes_and_splits_words() {
    let words = tokenize("a \"b c\" d").unwrap();
    assert_eq!(words, vec!["a", "b c", "d"]);
    let escaped = tokenize("one\\ word").unwrap();
    assert_eq!(escaped, vec!["one word"]);
}
