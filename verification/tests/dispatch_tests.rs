use nostr_sdk::prelude::EventId;
use nostr_sdk::prelude::ToBech32;

use nostr_shell::command::parse_line;
use nostr_shell::dispatch::FetchPurpose;
use nostr_shell::dispatch::Plan;
use nostr_shell::dispatch::handle_command;
use nostr_shell::dispatch::publish_file_body;
use nostr_shell::event::EventKind;
use nostr_shell::render::render_failure;
use nostr_shell::render::render_recent;
use nostr_shell::render::render_submit_ok;

/// A stub standing in for the relay client facade: it only counts
/// how often each operation would be invoked for a given plan.
#[derive(Default)]
struct FacadeCalls {
    fetches: usize,
    submits: usize,
    deletes: usize,
}

fn run_plan(plan: &Plan, facade: &mut FacadeCalls) {
    match plan {
        Plan::Fetch { .. } => facade.fetches += 1,
        Plan::Submit { .. } => facade.submits += 1,
        Plan::Delete { .. } => facade.deletes += 1,
        _ => {}
    }
}

fn author() -> String {
    String::from("npub1exampleauthorkey")
}

fn valid_note_id() -> String {
    EventId::from_slice(&[1u8; 32]).unwrap().to_bech32().unwrap()
}

#[test]
fn gets_undecodable_id_replies_without_any_fetch() {
    let cmd = parse_line("gets nevent1abc").unwrap();
    let plan = handle_command(cmd, &author());
    let mut facade = FacadeCalls::default();
    run_plan(&plan, &mut facade);
    match &plan {
        Plan::Reply { text } => assert_eq!(text, "Invalid Id"),
        other => panic!("expected a reply, got {:?}", other),
    }
    assert_eq!(facade.fetches, 0);
    assert_eq!(facade.submits, 0);
}

#[test]
fn gets_valid_id_plans_a_bounded_fetch() {
    let id_text = valid_note_id();
    let cmd = parse_line(&format!("gets {}", id_text)).unwrap();
    match handle_command(cmd, &author()) {
        Plan::Fetch { filter, timeout_secs, purpose } => {
            assert_eq!(timeout_secs, 5);
            assert_eq!(purpose, FetchPurpose::ById);
            let id = filter.id.expect("the filter constrains the id");
            assert_eq!(id.text, id_text);
            assert_eq!(id.bytes, vec![1u8; 32]);
            assert!(filter.author.is_none());
            assert!(filter.limit.is_none());
        }
        other => panic!("expected a fetch plan, got {:?}", other),
    }
}

#[test]
fn ls_zero_fetches_once_and_reports_zero_events() {
    let cmd = parse_line("ls 0").unwrap();
    let plan = handle_command(cmd, &author());
    let mut facade = FacadeCalls::default();
    run_plan(&plan, &mut facade);
    assert_eq!(facade.fetches, 1);
    match &plan {
        Plan::Fetch { filter, purpose, .. } => {
            assert_eq!(*purpose, FetchPurpose::Recent);
            assert_eq!(filter.limit, Some(0));
            assert_eq!(filter.author.as_deref(), Some("npub1exampleauthorkey"));
        }
        other => panic!("expected a fetch plan, got {:?}", other),
    }
    assert_eq!(render_recent(&Vec::new()), "Found 0 events");
}

#[test]
fn puts_plain_message_submits_an_untagged_note() {
    let cmd = parse_line("puts \"hello world\"").unwrap();
    let plan = handle_command(cmd, &author());
    let mut facade = FacadeCalls::default();
    run_plan(&plan, &mut facade);
    assert_eq!(facade.submits, 1);
    match &plan {
        Plan::Submit { draft } => {
            assert_eq!(draft.content, "hello world");
            assert!(matches!(draft.kind, EventKind::Note));
            assert!(draft.tags.is_empty());
        }
        other => panic!("expected a submit plan, got {:?}", other),
    }
    assert_eq!(render_submit_ok(&valid_note_id()), format!("Just sent event ID {}", valid_note_id()));
}

#[test]
fn puts_unsupported_kind_replies_without_any_submit() {
    let cmd = parse_line("puts hello 5").unwrap();
    let plan = handle_command(cmd, &author());
    let mut facade = FacadeCalls::default();
    run_plan(&plan, &mut facade);
    match &plan {
        Plan::Reply { text } => assert_eq!(text, "Event kind 5 not supported"),
        other => panic!("expected a reply, got {:?}", other),
    }
    assert_eq!(facade.submits, 0);
}

#[test]
fn puts_bad_timestamp_replies_without_any_submit() {
    let cmd = parse_line("puts hello -p junk").unwrap();
    let plan = handle_command(cmd, &author());
    let mut facade = FacadeCalls::default();
    run_plan(&plan, &mut facade);
    match &plan {
        Plan::Reply { text } => assert_eq!(text, "Invalid publish date"),
        other => panic!("expected a reply, got {:?}", other),
    }
    assert_eq!(facade.submits, 0);
}

#[test]
fn rm_valid_id_plans_a_deletion_with_the_fixed_reason() {
    let id_text = valid_note_id();
    let cmd = parse_line(&format!("rm {}", id_text)).unwrap();
    match handle_command(cmd, &author()) {
        Plan::Delete { id, reason } => {
            assert_eq!(id.text, id_text);
            assert_eq!(reason, "Deleted by author");
        }
        other => panic!("expected a delete plan, got {:?}", other),
    }
}

#[test]
fn rm_undecodable_id_replies_without_any_deletion() {
    let cmd = parse_line("rm garbage").unwrap();
    let plan = handle_command(cmd, &author());
    let mut facade = FacadeCalls::default();
    run_plan(&plan, &mut facade);
    match &plan {
        Plan::Reply { text } => assert_eq!(text, "Invalid Id"),
        other => panic!("expected a reply, got {:?}", other),
    }
    assert_eq!(facade.deletes, 0);
}

#[test]
fn exit_plans_no_relay_call() {
    let cmd = parse_line("exit").unwrap();
    let plan = handle_command(cmd, &author());
    let mut facade = FacadeCalls::default();
    run_plan(&plan, &mut facade);
    assert!(matches!(plan, Plan::Exit));
    assert_eq!(facade.fetches + facade.submits + facade.deletes, 0);
}

#[test]
fn cp_plans_the_file_read_then_a_long_form_submit() {
    let cmd = parse_line("cp post.md -t \"The Next Web\"").unwrap();
    let plan = handle_command(cmd, &author());
    match plan {
        Plan::ReadFile { file_name, title, publish_date, image_url } => {
            assert_eq!(file_name, "post.md");
            let next = publish_file_body(
                String::from("article body"),
                title,
                publish_date,
                image_url,
            );
            match next {
                Plan::Submit { draft } => {
                    assert_eq!(draft.content, "article body");
                    assert!(matches!(draft.kind, EventKind::LongFormArticle));
                    assert_eq!(draft.tags.len(), 1);
                }
                other => panic!("expected a submit plan, got {:?}", other),
            }
        }
        other => panic!("expected a read-file plan, got {:?}", other),
    }
}

#[test]
fn repeated_failure_renders_the_same_message() {
    let id_text = valid_note_id();
    let line = format!("gets {}", id_text);
    let relay_error = "relay unreachable: connection refused";
    let mut outputs = Vec::new();
    for _ in 0..2 {
        let cmd = parse_line(&line).unwrap();
        let plan = handle_command(cmd, &author());
        assert!(matches!(plan, Plan::Fetch { .. }));
        outputs.push(render_failure(relay_error));
    }
    assert_eq!(outputs[0], outputs[1]);
    assert_eq!(outputs[0], "relay unreachable: connection refused");
}
