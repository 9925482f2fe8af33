//! The index and the write path.

use capturebot::store::{conclude, submit, SubmitError, Submission};
use capturebot::{CapturebotNote, NoteIndex};

fn note(identity: &str, id: &str) -> CapturebotNote {
    CapturebotNote {
        id: id.to_string(),
        path: format!("/notes/{}.org", id),
        capturebot_id: identity.to_string(),
        _capturebot_parent: None,
        title: format!("note {}", id),
        body: format!("body of {}", id),
    }
}

#[test]
fn new_index_is_empty() {
    let notes = NoteIndex::new();
    assert!(notes.is_empty());
    assert_eq!(notes.len(), 0);
    assert!(!notes.contains_key("1"));
    assert_eq!(notes.lookup("1"), None);
}

#[test]
fn register_then_lookup() {
    let mut notes = NoteIndex::new();
    assert!(notes.register(note("1", "a")));
    assert!(notes.register(note("2", "b")));
    assert_eq!(notes.len(), 2);
    assert!(!notes.is_empty());
    assert_eq!(notes.lookup("1"), Some(&note("1", "a")));
    assert_eq!(notes.lookup("2"), Some(&note("2", "b")));
    assert_eq!(notes.lookup("3"), None);
    assert!(notes.contains_key("2"));
}

#[test]
fn first_writer_wins() {
    let mut notes = NoteIndex::new();
    assert!(notes.register(note("1", "first")));
    assert!(!notes.register(note("1", "second")));
    assert_eq!(notes.len(), 1);
    assert_eq!(notes.lookup("1").unwrap().id, "first");
    assert_eq!(notes.lookup("1"), Some(&note("1", "first")));
}

#[test]
fn submit_asks_for_a_write_of_an_unknown_note() {
    let notes = NoteIndex::new();
    assert_eq!(submit(&notes, note("1", "a")), Submission::Write(note("1", "a")));
    assert!(notes.is_empty());
}

#[test]
fn submit_skips_a_known_identity() {
    let mut notes = NoteIndex::new();
    notes.register(note("1", "a"));
    assert_eq!(submit(&notes, note("1", "b")), Submission::AlreadyCaptured);
    assert_eq!(notes.lookup("1").unwrap().id, "a");
}

#[test]
fn conclude_registers_after_a_write() {
    let mut notes = NoteIndex::new();
    assert_eq!(conclude(&mut notes, note("1", "a"), true), Ok(()));
    assert_eq!(notes.lookup("1"), Some(&note("1", "a")));
    assert_eq!(submit(&notes, note("1", "a")), Submission::AlreadyCaptured);
}

#[test]
fn failed_write_leaves_the_index_alone() {
    let mut notes = NoteIndex::new();
    notes.register(note("0", "z"));
    assert_eq!(conclude(&mut notes, note("1", "a"), false), Err(SubmitError::WriteFailed));
    assert!(!notes.contains_key("1"));
    assert_eq!(notes.len(), 1);
    assert_eq!(submit(&notes, note("1", "a")), Submission::Write(note("1", "a")));
    assert_eq!(SubmitError::WriteFailed.message(), "the note could not be written");
}

#[test]
fn clone_copies_every_field() {
    let note = CapturebotNote {
        id: "i".to_string(),
        path: "p".to_string(),
        capturebot_id: "c".to_string(),
        _capturebot_parent: Some("q".to_string()),
        title: "t".to_string(),
        body: "b".to_string(),
    };
    assert_eq!(note.clone(), note);
}
