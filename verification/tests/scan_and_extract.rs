//! The property extractor and the loading of documents.

use capturebot::document::{
    extract_note, find_declared_title, find_property, find_required, ExtractError, Keyword,
    NodeProperty, ParsedDocument, ParsedHeading,
};
use capturebot::scan::{is_note_file, load_document, scan_roots, DropReason, Dropped, Scanned};
use capturebot::{
    load_notes, load_scanned, CapturebotConfig, CapturebotNote, ContextualFrom, NoteIndex,
};

fn property(name: &str, value: Option<&str>) -> NodeProperty {
    NodeProperty { name: name.to_string(), value: value.map(str::to_string) }
}

fn keyword(key: &str, value: &str) -> Keyword {
    Keyword { key: key.to_string(), value: value.to_string() }
}

fn document(identity: Option<&str>, id: Option<&str>, title: Option<&str>) -> ParsedDocument {
    let mut properties = Vec::new();
    if let Some(id) = id {
        properties.push(property("ID", Some(id)));
    }
    properties.push(property("CREATED", Some("[2023-01-01 Sun 00:00]")));
    if let Some(identity) = identity {
        properties.push(property("CAPTUREBOT_MESSAGE_ID", Some(identity)));
    }
    ParsedDocument {
        source: "the source".to_string(),
        path: Some("/notes/a.org".to_string()),
        keywords: title.map(|t| keyword("title", t)).into_iter().collect(),
        properties,
        children: Vec::new(),
    }
}

fn heading(identity: Option<&str>, id: &str, title: &str) -> ParsedHeading {
    let mut properties = vec![property("ID", Some(id))];
    if let Some(identity) = identity {
        properties.push(property("CAPTUREBOT_MESSAGE_ID", Some(identity)));
    }
    ParsedHeading { source: format!("* {}\n", title), title: title.to_string(), properties }
}

fn extract(doc: &ParsedDocument) -> Result<CapturebotNote, ExtractError> {
    let config = CapturebotConfig::for_testing("extract");
    CapturebotNote::contextual_from(doc, &NoteIndex::new(), &config)
}

#[test]
fn note_files_end_in_org() {
    assert!(is_note_file("20230101000000-test-note.org"));
    assert!(is_note_file(".org"));
    assert!(!is_note_file("org"));
    assert!(!is_note_file("note.org.bak"));
    assert!(!is_note_file("note.ORG"));
    assert!(!is_note_file(""));
    assert!(!is_note_file("noteorg"));
}

#[test]
fn staging_root_is_scanned_first() {
    let config = CapturebotConfig::for_testing("roots");
    assert_eq!(
        scan_roots(&config),
        vec!["/tmp/test_out/read/roots/".to_string(), "/tmp/test_out/roots/".to_string()]
    );
}

#[test]
fn property_lookup_takes_the_last_value() {
    let table = vec![
        property("ID", Some("one")),
        property("OTHER", Some("x")),
        property("ID", Some("two")),
        property("ID", None),
    ];
    assert_eq!(find_property(&table, "ID"), Some("two".to_string()));
    assert_eq!(find_property(&table, "OTHER"), Some("x".to_string()));
    assert_eq!(find_property(&table, "id"), None);
    assert_eq!(find_property(&Vec::new(), "ID"), None);
}

#[test]
fn required_property_must_not_be_empty() {
    let table = vec![property("ID", Some("one")), property("ID", Some(""))];
    assert_eq!(find_property(&table, "ID"), Some(String::new()));
    assert_eq!(find_required(&table, "ID"), None);
    assert_eq!(find_required(&vec![property("ID", Some("x"))], "ID"), Some("x".to_string()));
}

#[test]
fn declared_title_is_the_first_title_keyword() {
    let keywords = vec![keyword("author", "me"), keyword("title", "One"), keyword("title", "Two")];
    assert_eq!(find_declared_title(&keywords), Some("One".to_string()));
    assert_eq!(find_declared_title(&vec![keyword("TITLE", "Loud")]), None);
    assert_eq!(find_declared_title(&Vec::new()), None);
}

#[test]
fn document_yields_its_note() {
    let mut doc = document(Some("12345"), Some("test-uuid"), Some("Test Note"));
    doc.properties.push(property("CAPTUREBOT_PARENT_MESSAGE_ID", Some("12000")));
    assert_eq!(
        extract(&doc),
        Ok(CapturebotNote {
            id: "test-uuid".to_string(),
            path: "/notes/a.org".to_string(),
            capturebot_id: "12345".to_string(),
            _capturebot_parent: Some("12000".to_string()),
            title: "Test Note".to_string(),
            body: "the source".to_string(),
        })
    );
}

#[test]
fn document_without_title_or_path() {
    let mut doc = document(Some("1"), Some("i"), None);
    doc.path = None;
    let note = extract(&doc).unwrap();
    assert_eq!(note.title, "untitled capturebot note");
    assert_eq!(note.path, "");
}

#[test]
fn document_without_identity_is_dropped() {
    assert_eq!(
        extract(&document(None, Some("i"), Some("t"))),
        Err(ExtractError::MissingCapturebotId)
    );
    assert_eq!(extract(&document(None, None, Some("t"))), Err(ExtractError::MissingCapturebotId));
    assert_eq!(extract(&document(Some("1"), None, Some("t"))), Err(ExtractError::MissingId));
    assert_eq!(extract(&document(Some(""), Some("i"), None)), Err(ExtractError::MissingCapturebotId));
    assert_eq!(extract(&document(Some("1"), Some(""), None)), Err(ExtractError::MissingId));
    assert_eq!(
        ExtractError::MissingCapturebotId.message(),
        "this note has no capturebot id, dropping"
    );
    assert_eq!(ExtractError::MissingId.message(), "this note has no id, dropping");
}

#[test]
fn heading_yields_its_note() {
    let config = CapturebotConfig::for_testing("heading");
    let doc = document(None, None, None);
    let h = heading(Some("77"), "h-id", "A heading");
    assert_eq!(
        CapturebotNote::contextual_from(&h, &doc, &config),
        Ok(CapturebotNote {
            id: "h-id".to_string(),
            path: "/notes/a.org".to_string(),
            capturebot_id: "77".to_string(),
            _capturebot_parent: None,
            title: "A heading".to_string(),
            body: "* A heading\n".to_string(),
        })
    );
    assert_eq!(
        CapturebotNote::contextual_from(&heading(None, "h", "t"), &doc, &config),
        Err(ExtractError::MissingCapturebotId)
    );
    let mut nowhere = document(None, None, None);
    nowhere.path = None;
    assert_eq!(CapturebotNote::contextual_from(&h, &nowhere, &config).unwrap().path, "");
}

#[test]
fn sub_sections_of_one_file_get_their_own_notes_at_its_path() {
    let config = CapturebotConfig::for_testing("sub_sections");
    let mut doc = document(None, Some("root"), Some("Root"));
    doc.path = Some("/notes/f.org".to_string());
    doc.children = vec![heading(Some("k1"), "L1", "First"), heading(Some("k2"), "L2", "Second")];
    let mut notes = NoteIndex::new();
    let report = load_notes(&mut notes, &vec![doc], &config);
    assert_eq!(
        report,
        vec![Dropped {
            document: 0,
            section: None,
            error: DropReason::NoNote(ExtractError::MissingCapturebotId)
        }]
    );
    assert_eq!(notes.len(), 2);
    let first = notes.lookup("k1").unwrap();
    let second = notes.lookup("k2").unwrap();
    assert_eq!((first.id.as_str(), first.title.as_str()), ("L1", "First"));
    assert_eq!((second.id.as_str(), second.title.as_str()), ("L2", "Second"));
    assert_eq!(first.path, "/notes/f.org");
    assert_eq!(second.path, "/notes/f.org");
}

#[test]
fn unparsable_file_is_dropped_and_the_scan_goes_on() {
    let config = CapturebotConfig::for_testing("unparsable");
    let mut second = document(Some("2"), Some("two"), None);
    second.children = vec![heading(None, "h", "None")];
    let files = vec![
        Scanned::Parsed(document(Some("1"), Some("one"), None)),
        Scanned::Unparsable { path: "/notes/broken.org".to_string() },
        Scanned::Parsed(second),
        Scanned::Unparsable { path: "/notes/worse.org".to_string() },
    ];
    let mut notes = NoteIndex::new();
    let report = load_scanned(&mut notes, &files, &config);
    assert_eq!(notes.len(), 2);
    assert_eq!(notes.lookup("1").unwrap().id, "one");
    assert_eq!(notes.lookup("2").unwrap().id, "two");
    assert_eq!(
        report,
        vec![
            Dropped { document: 1, section: None, error: DropReason::Unparsable },
            Dropped {
                document: 2,
                section: Some(0),
                error: DropReason::NoNote(ExtractError::MissingCapturebotId)
            },
            Dropped { document: 3, section: None, error: DropReason::Unparsable },
        ]
    );
    assert!(load_scanned(&mut notes, &Vec::new(), &config).is_empty());
    assert_eq!(notes.len(), 2);
}

#[test]
fn reasons_in_words() {
    assert_eq!(DropReason::Unparsable.message(), "failed to parse contents of file");
    assert_eq!(
        DropReason::NoNote(ExtractError::MissingCapturebotId).message(),
        "this note has no capturebot id, dropping"
    );
    assert_eq!(
        DropReason::NoNote(ExtractError::MissingId).message(),
        "this note has no id, dropping"
    );
}

#[test]
fn extraction_from_parts() {
    let table = vec![property("CAPTUREBOT_MESSAGE_ID", Some("5")), property("ID", Some("five"))];
    let note =
        extract_note(&table, "T".to_string(), "P".to_string(), "S".to_string()).unwrap();
    assert_eq!((note.id.as_str(), note.capturebot_id.as_str()), ("five", "5"));
    assert_eq!((note.title.as_str(), note.path.as_str(), note.body.as_str()), ("T", "P", "S"));
}

#[test]
fn loading_registers_root_and_sub_sections() {
    let config = CapturebotConfig::for_testing("load");
    let mut doc = document(Some("1"), Some("root"), Some("Root"));
    doc.children =
        vec![heading(Some("2"), "h2", "Two"), heading(None, "h0", "None"), heading(Some("3"), "h3", "Three")];
    let mut notes = NoteIndex::new();
    let report = load_notes(&mut notes, &vec![doc], &config);
    assert_eq!(notes.len(), 3);
    assert_eq!(notes.lookup("1").unwrap().title, "Root");
    assert_eq!(notes.lookup("2").unwrap().title, "Two");
    assert_eq!(notes.lookup("3").unwrap().id, "h3");
    assert_eq!(
        report,
        vec![Dropped { document: 0, section: Some(1), error: DropReason::NoNote(ExtractError::MissingCapturebotId) }]
    );
}

#[test]
fn loading_keeps_the_first_of_two_copies() {
    let config = CapturebotConfig::for_testing("copies");
    let mut staged = document(Some("9"), Some("staged"), Some("Staged"));
    staged.path = Some("/inbox/a.org".to_string());
    let mut saved = document(Some("9"), Some("saved"), Some("Saved"));
    saved.children = vec![heading(Some("9"), "nested", "Nested")];
    let broken = document(None, None, None);

    let mut notes = NoteIndex::new();
    let report = load_notes(&mut notes, &vec![staged, broken, saved], &config);
    assert_eq!(notes.len(), 1);
    assert_eq!(notes.lookup("9").unwrap().id, "staged");
    assert_eq!(notes.lookup("9").unwrap().path, "/inbox/a.org");
    assert_eq!(
        report,
        vec![Dropped { document: 1, section: None, error: DropReason::NoNote(ExtractError::MissingCapturebotId) }]
    );
}

#[test]
fn loading_does_not_replace_what_is_registered() {
    let config = CapturebotConfig::for_testing("keep");
    let mut notes = NoteIndex::new();
    load_notes(&mut notes, &vec![document(Some("4"), Some("old"), None)], &config);
    let report = load_notes(&mut notes, &vec![document(Some("4"), Some("new"), None)], &config);
    assert!(report.is_empty());
    assert_eq!(notes.lookup("4").unwrap().id, "old");
    assert!(load_notes(&mut notes, &Vec::new(), &config).is_empty());
    assert_eq!(notes.len(), 1);
}

#[test]
fn loading_one_document_appends_to_the_report() {
    let config = CapturebotConfig::for_testing("one");
    let mut notes = NoteIndex::new();
    let mut report =
        vec![Dropped { document: 0, section: None, error: DropReason::NoNote(ExtractError::MissingId) }];
    let mut doc = document(Some("1"), None, None);
    doc.children = vec![heading(Some("2"), "h2", "Two")];
    load_document(&mut notes, &doc, 5, &config, &mut report);
    assert_eq!(
        report,
        vec![
            Dropped { document: 0, section: None, error: DropReason::NoNote(ExtractError::MissingId) },
            Dropped { document: 5, section: None, error: DropReason::NoNote(ExtractError::MissingId) },
        ]
    );
    assert!(notes.contains_key("2"));
    assert!(!notes.contains_key("1"));
}
