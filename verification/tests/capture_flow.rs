//! The capture flow end to end, with the documents kept in memory.

use capturebot::document::{Keyword, NodeProperty, ParsedDocument};
use capturebot::store::{conclude, Submission};
use capturebot::{
    add_event, add_note, load_notes, CapturebotConfig, CapturebotNote, ContextualFrom,
    LiveEntity, LiveEntityKind, LiveMessage, MessageEvent, NoteIndex, ValidMessage,
    CAPTUREBOT_ID_PROPERTY,
};
use std::collections::HashMap;

fn create_test_message(id: i32, text: &str, reply_to: Option<i32>) -> LiveMessage {
    let config = CapturebotConfig::for_testing("create_test_message");
    LiveMessage {
        id,
        from: Some(config.user_id),
        date: chrono::Utc::now().timestamp(),
        text: Some(text.to_string()),
        entities: Vec::new(),
        reply_to_message_id: reply_to,
    }
}

/// Reads a stored document the way the scanner's parser would: the records
/// of the leading property drawer and the keyword lines after it.
fn read_document(path: &str, source: &str) -> ParsedDocument {
    let mut properties = Vec::new();
    let mut keywords = Vec::new();
    let mut in_drawer = false;
    for line in source.lines() {
        if line == ":PROPERTIES:" {
            in_drawer = true;
        } else if line == ":END:" {
            in_drawer = false;
        } else if in_drawer {
            let rest = &line[1..];
            let colon = rest.find(':').expect("a property has a name");
            let value = rest[colon + 1..].trim();
            properties.push(NodeProperty {
                name: rest[..colon].to_string(),
                value: if value.is_empty() { None } else { Some(value.to_string()) },
            });
        } else if let Some(rest) = line.strip_prefix("#+") {
            if let Some(colon) = rest.find(':') {
                keywords.push(Keyword {
                    key: rest[..colon].to_string(),
                    value: rest[colon + 1..].trim().to_string(),
                });
            }
        }
    }
    ParsedDocument {
        source: source.to_string(),
        path: Some(path.to_string()),
        keywords,
        properties,
        children: Vec::new(),
    }
}

/// Carries out what was decided about a message, with `files` for a disk.
fn carry_out(
    step: Submission,
    notes: &mut NoteIndex,
    files: &mut HashMap<String, String>,
) -> bool {
    match step {
        Submission::AlreadyCaptured => false,
        Submission::Write(note) => {
            files.insert(note.path.clone(), note.body.clone());
            conclude(notes, note, true).expect("the write succeeded");
            true
        }
    }
}

/// Runs one message through the write path, with `files` for a disk.
fn capture(
    msg: LiveMessage,
    notes: &mut NoteIndex,
    config: &CapturebotConfig,
    files: &mut HashMap<String, String>,
) -> bool {
    let step = add_note(msg, notes, config).expect("the message has text");
    carry_out(step, notes, files)
}

fn reload(files: &HashMap<String, String>, config: &CapturebotConfig) -> NoteIndex {
    let mut paths: Vec<&String> = files.keys().collect();
    paths.sort();
    let documents: Vec<ParsedDocument> =
        paths.into_iter().map(|path| read_document(path, &files[path])).collect();
    let mut notes = NoteIndex::new();
    let report = load_notes(&mut notes, &documents, config);
    assert!(report.is_empty());
    notes
}

#[test]
fn test_is_valid_msg() {
    let config = CapturebotConfig::for_testing("test_is_valid_msg");

    let valid_msg = create_test_message(1, "Test message", None);
    assert!(LiveMessage::is_valid_msg(valid_msg, &config), "Message should be valid");

    let mut invalid_user_msg = create_test_message(2, "Test message", None);
    if let Some(user) = invalid_user_msg.from.as_mut() {
        *user = 99999;
    }
    assert!(
        !LiveMessage::is_valid_msg(invalid_user_msg, &config),
        "Message with wrong user ID should be invalid"
    );
}

#[test]
fn message_without_text_or_sender_is_invalid() {
    let config = CapturebotConfig::for_testing("message_without_text_or_sender_is_invalid");
    let mut no_text = create_test_message(3, "x", None);
    no_text.text = None;
    assert!(!LiveMessage::is_valid_msg(no_text.clone(), &config));
    assert!(!MessageEvent::is_valid_msg(no_text.to_event(), &config));
    let mut no_sender = create_test_message(4, "x", None);
    no_sender.from = None;
    assert!(!LiveMessage::is_valid_msg(no_sender.clone(), &config));
    assert!(!MessageEvent::is_valid_msg(no_sender.to_event(), &config));
    let fine = create_test_message(5, "x", None);
    assert!(MessageEvent::is_valid_msg(fine.to_event(), &config));
}

#[test]
fn test_note_from_message() {
    let config = CapturebotConfig::for_testing("test_note_from_message");

    let msg = create_test_message(1, "Test Title\nTest body content", None);
    let notes = NoteIndex::new();

    let note = CapturebotNote::contextual_from(msg.clone(), &notes, &config).unwrap();

    assert_eq!(note.title, "Test Title");
    assert!(note.body.contains("Test Title"));
    assert!(note.body.contains("Test body content"));
    assert_eq!(note.capturebot_id, msg.id.to_string());
    assert!(note.path.contains(".org"));
}

#[test]
fn test_load_notes() {
    let test_config = CapturebotConfig::for_testing("test_load_notes");

    let test_file_path = format!("{}{}", test_config.save_dir, "20230101000000-test-note.org");
    let test_content = format!(
        ":PROPERTIES:\n:ID: test-uuid\n:CREATED: [2023-01-01 Sun 00:00]\n:{}: 12345\n:END:\n#+title: Test Note\nTest content\n",
        CAPTUREBOT_ID_PROPERTY
    );

    let mut notes = NoteIndex::new();
    let documents = vec![read_document(&test_file_path, &test_content)];
    let report = load_notes(&mut notes, &documents, &test_config);
    assert!(report.is_empty());

    assert!(notes.contains_key("12345"), "Note should be loaded with correct ID");
    let loaded_note = notes.lookup("12345").unwrap();
    assert_eq!(loaded_note.title, "Test Note");
    assert_eq!(loaded_note.id, "test-uuid");
    assert_eq!(loaded_note.path, test_file_path);
    assert_eq!(loaded_note.body, test_content);
    assert_eq!(loaded_note._capturebot_parent, None);
}

#[test]
fn test_add_note() {
    let test_config = CapturebotConfig::for_testing("test_add_note");
    let mut files = HashMap::new();

    let msg = create_test_message(123, "Test Add Note\nThis is a test note", None);
    let mut notes = NoteIndex::new();

    assert!(capture(msg.clone(), &mut notes, &test_config, &mut files));

    assert!(notes.contains_key(&msg.id.to_string()), "Note should be added to the map");

    let note = notes.lookup(&msg.id.to_string()).unwrap();
    assert!(files.contains_key(&note.path), "Note file should exist");
    assert_eq!(files[&note.path], note.body);
}

#[test]
fn test_reply_relationship() {
    let test_config = CapturebotConfig::for_testing("test_reply_relationship");
    let mut files = HashMap::new();

    let parent_msg = create_test_message(456, "Parent Note\nThis is a parent note", None);
    let mut notes = NoteIndex::new();
    capture(parent_msg.clone(), &mut notes, &test_config, &mut files);

    let reply_msg = create_test_message(789, "Reply Note\nThis is a reply note", Some(456));
    capture(reply_msg.clone(), &mut notes, &test_config, &mut files);

    let parent_note = notes.lookup(&parent_msg.id.to_string()).unwrap();
    let reply_note = notes.lookup(&reply_msg.id.to_string()).unwrap();

    assert!(reply_note.body.contains(&parent_note.id), "Reply should reference parent ID");
    assert_eq!(reply_note._capturebot_parent, Some("456".to_string()));
}

#[test]
fn test_integration_flow() {
    let test_config = CapturebotConfig::for_testing("test_integration_flow");
    let mut files = HashMap::new();

    let mut notes = NoteIndex::new();

    let msg1 = create_test_message(1001, "First Note\nContent of first note", None);
    let msg2 = create_test_message(1002, "Second Note\nContent of second note", Some(1001));

    capture(msg1.clone(), &mut notes, &test_config, &mut files);
    capture(msg2.clone(), &mut notes, &test_config, &mut files);

    let notes = reload(&files, &test_config);

    assert!(notes.contains_key(&msg1.id.to_string()), "First note should be loaded");
    assert!(notes.contains_key(&msg2.id.to_string()), "Second note should be loaded");

    let note2 = notes.lookup(&msg2.id.to_string()).unwrap();
    let note1 = notes.lookup(&msg1.id.to_string()).unwrap();
    assert!(note2.body.contains(&note1.id), "Relationship should be maintained after reload");
    assert_eq!(note2._capturebot_parent, Some("1001".to_string()));
}

#[test]
fn submitting_twice_stores_once() {
    let config = CapturebotConfig::for_testing("submitting_twice_stores_once");
    let mut files = HashMap::new();
    let mut notes = NoteIndex::new();
    let msg = create_test_message(7, "Once\nonly", None);

    assert!(capture(msg.clone(), &mut notes, &config, &mut files));
    let first_id = notes.lookup("7").unwrap().id.clone();
    assert!(!capture(msg.clone(), &mut notes, &config, &mut files));

    assert_eq!(files.len(), 1);
    assert_eq!(notes.len(), 1);
    assert_eq!(notes.lookup("7").unwrap().id, first_id);
    assert_eq!(add_note(msg, &notes, &config), Ok(Submission::AlreadyCaptured));
}

#[test]
fn known_identity_is_skipped_even_without_text() {
    let config = CapturebotConfig::for_testing("known_identity_is_skipped_even_without_text");
    let mut files = HashMap::new();
    let mut notes = NoteIndex::new();
    capture(create_test_message(8, "Here", None), &mut notes, &config, &mut files);
    let mut again = create_test_message(8, "Here", None);
    again.text = None;
    assert_eq!(add_note(again, &notes, &config), Ok(Submission::AlreadyCaptured));
}

#[test]
fn round_trip_keeps_identity_id_and_title() {
    let config = CapturebotConfig::for_testing("round_trip_keeps_identity_id_and_title");
    let mut files = HashMap::new();
    let mut notes = NoteIndex::new();
    capture(create_test_message(31, "Round trip\nand back", None), &mut notes, &config, &mut files);
    let before = notes.lookup("31").unwrap().clone();

    let rebuilt = reload(&files, &config);
    let after = rebuilt.lookup("31").unwrap();
    assert_eq!(after.capturebot_id, before.capturebot_id);
    assert_eq!(after.id, before.id);
    assert_eq!(after.title, before.title);
    assert_eq!(after.title, "Round trip");
    assert_eq!(after.body, before.body);
    assert_eq!(after.path, before.path);
}

#[test]
fn scenario_first_then_reply() {
    let config = CapturebotConfig::for_testing("scenario_first_then_reply");
    let mut files = HashMap::new();
    let mut notes = NoteIndex::new();

    let first = MessageEvent {
        id: "1001".to_string(),
        sender: Some(config.user_id),
        date: 1_672_531_200,
        text: Some("First\nbody".to_string()),
        links: Vec::new(),
        reply_to: None,
    };
    let step = add_event(first, &notes, &config).unwrap();
    assert!(carry_out(step, &mut notes, &mut files));
    assert!(notes.contains_key("1001"));
    assert_eq!(files.len(), 1);
    let path = files.keys().next().unwrap().clone();
    assert!(path.starts_with(config.save_dir.as_str()));
    assert!(path.ends_with("-first.org"));
    assert_eq!(path, "/tmp/test_out/scenario_first_then_reply//20230101000000-first.org");
    let first_id = notes.lookup("1001").unwrap().id.clone();

    let second = MessageEvent {
        id: "1002".to_string(),
        sender: Some(config.user_id),
        date: 1_672_531_260,
        text: Some("Second".to_string()),
        links: Vec::new(),
        reply_to: Some("1001".to_string()),
    };
    let step = add_event(second, &notes, &config).unwrap();
    assert!(carry_out(step, &mut notes, &mut files));
    let reply = notes.lookup("1002").unwrap();
    assert!(reply.body.contains(&first_id));
    assert!(reply.body.contains(&format!("* Related: [[id:{}][First]]\n", first_id)));
}

#[test]
fn live_message_as_event() {
    let mut msg = create_test_message(-3, "See a.example and here", Some(2));
    msg.date = 1_672_531_200;
    msg.entities = vec![
        LiveEntity { kind: LiveEntityKind::Other, text: "See".to_string() },
        LiveEntity { kind: LiveEntityKind::Url, text: "a.example".to_string() },
        LiveEntity {
            kind: LiveEntityKind::TextLink { url: "https://b.example/".to_string() },
            text: "here".to_string(),
        },
    ];
    let event = msg.to_event();
    assert_eq!(
        event,
        MessageEvent {
            id: "-3".to_string(),
            sender: Some(12345),
            date: 1_672_531_200,
            text: Some("See a.example and here".to_string()),
            links: vec![
                capturebot::EventLink::Raw("a.example".to_string()),
                capturebot::EventLink::Raw("https://b.example/".to_string()),
            ],
            reply_to: Some("2".to_string()),
        }
    );
    let config = CapturebotConfig::for_testing("live_message_as_event");
    let note = CapturebotNote::contextual_from(msg, &NoteIndex::new(), &config).unwrap();
    assert!(note.body.contains(":ROAM_REFS: a.example, https://b.example/\n"));
    assert!(note.body.contains(":CAPTUREBOT_MESSAGE_ID: -3\n:CAPTUREBOT_PARENT_MESSAGE_ID: 2\n"));
}
