use nostr_shell::command::PublishArgs;
use nostr_shell::errors::ValidationError;
use nostr_shell::event::EventKind;
use nostr_shell::event::Tag;
use nostr_shell::event::build_publish;

fn args(
    kind: u16,
    title: Option<&str>,
    publish_date: Option<&str>,
    image_url: Option<&str>,
) -> PublishArgs {
    PublishArgs {
        message: String::from("body"),
        kind,
        title: title.map(String::from),
        publish_date: publish_date.map(String::from),
        image_url: image_url.map(String::from),
    }
}

#[test]
fn full_draft_has_three_tags_in_order() {
    let draft = build_publish(args(
        1,
        Some("T"),
        Some("2023-04-13T20:23:00-07:00"),
        Some("https://x/y.jpg"),
    ))
    .expect("all three tag sources are valid");
    assert_eq!(draft.content, "body");
    assert!(matches!(draft.kind, EventKind::Note));
    assert_eq!(draft.tags.len(), 3);
    match &draft.tags[0] {
        Tag::Title(t) => assert_eq!(t, "T"),
        other => panic!("expected the title tag first, got {:?}", other),
    }
    match &draft.tags[1] {
        Tag::PublishedAt(ts) => assert_eq!(*ts, 1681442580),
        other => panic!("expected the publication tag second, got {:?}", other),
    }
    match &draft.tags[2] {
        Tag::Image(u) => assert_eq!(u, "https://x/y.jpg"),
        other => panic!("expected the image tag third, got {:?}", other),
    }
}

#[test]
fn plain_note_has_no_tags() {
    let draft = build_publish(args(1, None, None, None)).expect("a bare note is valid");
    assert!(draft.tags.is_empty());
    assert!(matches!(draft.kind, EventKind::Note));
}

#[test]
fn long_form_kind_is_supported() {
    let draft = build_publish(args(30023, None, None, None)).expect("long form is valid");
    assert!(matches!(draft.kind, EventKind::LongFormArticle));
}

#[test]
fn bad_timestamp_aborts_the_build() {
    let r = build_publish(args(1, None, Some("not-a-date"), None));
    assert_eq!(r.unwrap_err(), ValidationError::InvalidTimestamp);
}

#[test]
fn date_only_timestamp_is_rejected() {
    let r = build_publish(args(1, None, Some("2023-04-13"), None));
    assert_eq!(r.unwrap_err(), ValidationError::InvalidTimestamp);
}

#[test]
fn utc_timestamp_parses() {
    let draft = build_publish(args(1, None, Some("2023-04-14T03:23:00Z"), None))
        .expect("a Z-suffixed date-time is valid");
    match &draft.tags[0] {
        Tag::PublishedAt(ts) => assert_eq!(*ts, 1681442580),
        other => panic!("expected the publication tag, got {:?}", other),
    }
}

#[test]
fn bad_url_aborts_the_build() {
    let r = build_publish(args(1, None, None, Some("not a url")));
    assert_eq!(r.unwrap_err(), ValidationError::InvalidUrl);
}

#[test]
fn url_is_stored_in_serialized_form() {
    let draft = build_publish(args(1, None, None, Some("HTTPS://EXAMPLE.COM/path")))
        .expect("an upper-cased URL is well-formed");
    match &draft.tags[0] {
        Tag::Image(u) => assert_eq!(u, "https://example.com/path"),
        other => panic!("expected the image tag, got {:?}", other),
    }
}

#[test]
fn unsupported_kind_names_the_value() {
    let r = build_publish(args(5, None, None, None));
    assert_eq!(r.unwrap_err(), ValidationError::UnsupportedKind(5));
    assert_eq!(
        ValidationError::UnsupportedKind(5).message(),
        "Event kind 5 not supported"
    );
}

#[test]
fn timestamp_error_precedes_kind_error() {
    let r = build_publish(args(5, None, Some("junk"), None));
    assert_eq!(r.unwrap_err(), ValidationError::InvalidTimestamp);
}

#[test]
fn validation_messages_are_distinguishable() {
    assert_eq!(ValidationError::InvalidTimestamp.message(), "Invalid publish date");
    assert_eq!(ValidationError::InvalidUrl.message(), "Invalid image URL");
    assert_eq!(ValidationError::InvalidId.message(), "Invalid Id");
}
