//! Rebuilding the index from the documents found on start-up.
//!
//! Walking the directories and reading and parsing the files is done by the
//! caller, root by root in the order of `scan_roots`. What the documents
//! yield, and which of two notes with one identity stays, is decided here.

use crate::config::CapturebotConfig;
use crate::document::{
    declared_title, document_note, heading_note, property_value, DocumentView, ExtractError,
    HeadingView, ParsedDocument, ParsedHeading,
};
use crate::index::{registered, IndexView, NoteIndex};
use crate::note::{
    CapturebotNote, ContextualFrom, NoteView, CAPTUREBOT_ID_PROPERTY, LOCAL_ID_PROPERTY,
};
use crate::text::{chars_of, ends_with, matches_at};
use vstd::prelude::*;
use vstd::string::*;

verus! {

/// The extension of a note file.
pub const NOTE_EXTENSION: &'static str = ".org";

/// Whether a file of this name is taken for a note.
pub fn is_note_file(name: &str) -> (taken: bool)
    ensures
        taken == ends_with(name@, NOTE_EXTENSION@),
{
    let name = chars_of(name);
    let extension = chars_of(NOTE_EXTENSION);
    if extension.len() > name.len() {
        false
    } else {
        matches_at(&name, name.len() - extension.len(), &extension)
    }
}

/// The roots to scan, in the order in which they are scanned: the staging
/// root before the save root, so that of two copies of a note the staged
/// one stays.
pub fn scan_roots(config: &CapturebotConfig) -> (roots: Vec<String>)
    ensures
        roots@.len() == 2,
        roots@[0]@ == config.read_dir@,
        roots@[1]@ == config.save_dir@,
{
    let mut roots: Vec<String> = Vec::new();
    roots.push(config.read_dir.clone());
    roots.push(config.save_dir.clone());
    roots
}

/// What the sections of a document yield, in order: the root first, then
/// each sub-section.
pub open spec fn section_outcomes(doc: DocumentView) -> Seq<Result<NoteView, ExtractError>> {
    seq![document_note(doc)] + doc.children.map_values(|h: HeadingView| heading_note(h, doc))
}

/// The index after the notes among `outcomes` were registered in order.
pub open spec fn absorbed(
    index: IndexView,
    outcomes: Seq<Result<NoteView, ExtractError>>,
) -> IndexView
    decreases outcomes.len(),
{
    if outcomes.len() == 0 {
        index
    } else {
        let before = absorbed(index, outcomes.drop_last());
        match outcomes.last() {
            Ok(note) => registered(before, note),
            Err(_) => before,
        }
    }
}

/// The index after `documents` were loaded in order.
pub open spec fn loaded(index: IndexView, documents: Seq<DocumentView>) -> IndexView
    decreases documents.len(),
{
    if documents.len() == 0 {
        index
    } else {
        absorbed(loaded(index, documents.drop_last()), section_outcomes(documents.last()))
    }
}

/// Why a candidate was dropped from a scan.
#[derive(Clone, Copy, Debug, PartialEq, Eq)]
pub enum DropReason {
    /// The file is no outline document: it did not parse.
    Unparsable,
    /// The section yields no note.
    NoNote(ExtractError),
}

impl DropReason {
    /// The reason in words.
    pub fn message(&self) -> (words: String)
        ensures
            words@ == match *self {
                DropReason::Unparsable => "failed to parse contents of file"@,
                DropReason::NoNote(ExtractError::MissingCapturebotId) =>
                    "this note has no capturebot id, dropping"@,
                DropReason::NoNote(ExtractError::MissingId) => "this note has no id, dropping"@,
            },
    {
        match self {
            DropReason::Unparsable => String::from_str("failed to parse contents of file"),
            DropReason::NoNote(error) => error.message(),
        }
    }
}

/// A candidate that was dropped from a scan: a file as a whole, or one
/// section of a document.
#[derive(Clone, Copy, Debug, PartialEq, Eq)]
pub struct Dropped {
    /// The position of the file, or document, among those loaded.
    pub document: usize,
    /// The position of the sub-section in its document; `None` for the
    /// document's root and for a file as a whole.
    pub section: Option<usize>,
    /// Why it was dropped.
    pub error: DropReason,
}

/// The section that stands at `position` among the outcomes of a document.
pub open spec fn section_at(position: int) -> Option<usize> {
    if position == 0 {
        None
    } else {
        Some((position - 1) as usize)
    }
}

/// The sections among `outcomes` that yielded no note, in order.
pub open spec fn dropped_in(document: usize, outcomes: Seq<Result<NoteView, ExtractError>>) -> Seq<
    Dropped,
>
    decreases outcomes.len(),
{
    if outcomes.len() == 0 {
        Seq::empty()
    } else {
        let before = dropped_in(document, outcomes.drop_last());
        match outcomes.last() {
            Ok(_) => before,
            Err(error) => before.push(
                Dropped {
                    document,
                    section: section_at(outcomes.len() - 1),
                    error: DropReason::NoNote(error),
                },
            ),
        }
    }
}

/// The sections of `documents` that yielded no note, in order.
pub open spec fn dropped(documents: Seq<DocumentView>) -> Seq<Dropped>
    decreases documents.len(),
{
    if documents.len() == 0 {
        Seq::empty()
    } else {
        dropped(documents.drop_last()) + dropped_in(
            (documents.len() - 1) as usize,
            section_outcomes(documents.last()),
        )
    }
}

/// Documents, as mathematics.
pub open spec fn documents_view(documents: Seq<ParsedDocument>) -> Seq<DocumentView> {
    documents.map_values(|d: ParsedDocument| d@)
}

/// Registers the notes of one document, the root's first, and reports the
/// sections that yielded none. A note whose identity is taken is left out
/// without a report: the one registered first stays.
pub fn load_document(
    notes: &mut NoteIndex,
    doc: &ParsedDocument,
    position: usize,
    config: &CapturebotConfig,
    report: &mut Vec<Dropped>,
)
    ensures
        final(notes)@ == absorbed(old(notes)@, section_outcomes(doc@)),
        final(report)@ == old(report)@ + dropped_in(position, section_outcomes(doc@)),
{
    let ghost start = notes@;
    let ghost reported = report@;
    let ghost outcomes = section_outcomes(doc@);
    proof {
        let first = outcomes.take(1);
        assert(absorbed(start, first.drop_last()) == start);
        assert(dropped_in(position, first.drop_last()) == Seq::<Dropped>::empty());
    }
    match CapturebotNote::contextual_from(doc, &*notes, config) {
        Ok(note) => {
            notes.register(note);
        },
        Err(error) => {
            report.push(
                Dropped { document: position, section: None, error: DropReason::NoNote(error) },
            );
        },
    }
    let mut i: usize = 0;
    while i < doc.children.len()
        invariant
            i <= doc.children.len(),
            outcomes == section_outcomes(doc@),
            outcomes.len() == doc.children.len() + 1,
            notes@ == absorbed(start, outcomes.take(i + 1)),
            report@ == reported + dropped_in(position, outcomes.take(i + 1)),
        decreases doc.children.len() - i,
    {
        let heading = &doc.children[i];
        assert(outcomes.take(i + 2).drop_last() == outcomes.take(i + 1));
        match CapturebotNote::contextual_from(heading, doc, config) {
            Ok(note) => {
                notes.register(note);
            },
            Err(error) => {
                report.push(
                    Dropped {
                        document: position,
                        section: Some(i),
                        error: DropReason::NoNote(error),
                    },
                );
            },
        }
        i += 1;
    }
    assert(outcomes.take(i + 1) == outcomes);
}

/// Registers the notes of `documents`, in order, and reports the sections
/// that yielded none.
///
/// Loading never fails and never replaces a note: of several notes with
/// one source identity, in the index or among the documents, the first
/// stays.
pub fn load_notes(
    notes: &mut NoteIndex,
    documents: &Vec<ParsedDocument>,
    config: &CapturebotConfig,
) -> (report: Vec<Dropped>)
    ensures
        final(notes)@ == loaded(old(notes)@, documents_view(documents@)),
        report@ == dropped(documents_view(documents@)),
{
    let ghost start = notes@;
    let ghost all = documents_view(documents@);
    let mut report: Vec<Dropped> = Vec::new();
    let mut i: usize = 0;
    while i < documents.len()
        invariant
            i <= documents.len(),
            all == documents_view(documents@),
            notes@ == loaded(start, all.take(i as int)),
            report@ == dropped(all.take(i as int)),
        decreases documents.len() - i,
    {
        assert(all.take(i + 1).drop_last() == all.take(i as int));
        load_document(notes, &documents[i], i, config, &mut report);
        i += 1;
    }
    assert(all.take(i as int) == all);
    report
}

/// What a scan found of one file: the document that its text parsed into,
/// or the fact that it did not parse.
#[derive(Clone, Debug, PartialEq, Eq)]
pub enum Scanned {
    Parsed(ParsedDocument),
    Unparsable { path: String },
}

/// A scanned file, as mathematics.
pub enum ScannedView {
    Parsed(DocumentView),
    Unparsable { path: Seq<char> },
}

impl View for Scanned {
    type V = ScannedView;

    open spec fn view(&self) -> ScannedView {
        match *self {
            Scanned::Parsed(doc) => ScannedView::Parsed(doc@),
            Scanned::Unparsable { path } => ScannedView::Unparsable { path: path@ },
        }
    }
}

/// Scanned files, as mathematics.
pub open spec fn scanned_view(files: Seq<Scanned>) -> Seq<ScannedView> {
    files.map_values(|f: Scanned| f@)
}

/// The documents among the files, in order: those that parsed.
pub open spec fn parsed_among(files: Seq<ScannedView>) -> Seq<DocumentView>
    decreases files.len(),
{
    if files.len() == 0 {
        Seq::empty()
    } else {
        let before = parsed_among(files.drop_last());
        match files.last() {
            ScannedView::Parsed(doc) => before.push(doc),
            ScannedView::Unparsable { .. } => before,
        }
    }
}

/// What a scan of `files` drops, in order: each file that did not parse,
/// as a whole, and each section of the others that yields no note.
/// Positions are those of the files.
pub open spec fn dropped_of_files(files: Seq<ScannedView>) -> Seq<Dropped>
    decreases files.len(),
{
    if files.len() == 0 {
        Seq::empty()
    } else {
        let position = (files.len() - 1) as usize;
        dropped_of_files(files.drop_last()) + match files.last() {
            ScannedView::Parsed(doc) => dropped_in(position, section_outcomes(doc)),
            ScannedView::Unparsable { .. } => seq![
                Dropped { document: position, section: None, error: DropReason::Unparsable },
            ],
        }
    }
}

/// Registers the notes of the files that parsed, in order, and reports
/// what was dropped.
///
/// A file that did not parse is dropped and the scan goes on: such a file
/// adds nothing to the index and one entry to the report. For the rest
/// this is `load_notes`.
pub fn load_scanned(
    notes: &mut NoteIndex,
    files: &Vec<Scanned>,
    config: &CapturebotConfig,
) -> (report: Vec<Dropped>)
    ensures
        final(notes)@ == loaded(old(notes)@, parsed_among(scanned_view(files@))),
        report@ == dropped_of_files(scanned_view(files@)),
{
    let ghost start = notes@;
    let ghost all = scanned_view(files@);
    let mut report: Vec<Dropped> = Vec::new();
    let mut i: usize = 0;
    while i < files.len()
        invariant
            i <= files.len(),
            all == scanned_view(files@),
            notes@ == loaded(start, parsed_among(all.take(i as int))),
            report@ == dropped_of_files(all.take(i as int)),
        decreases files.len() - i,
    {
        assert(all.take(i + 1).drop_last() == all.take(i as int));
        match &files[i] {
            Scanned::Parsed(doc) => {
                assert(parsed_among(all.take(i as int)).push(doc@).drop_last() == parsed_among(
                    all.take(i as int),
                ));
                load_document(notes, doc, i, config, &mut report);
            },
            Scanned::Unparsable { .. } => {
                report.push(
                    Dropped { document: i, section: None, error: DropReason::Unparsable },
                );
            },
        }
        i += 1;
    }
    assert(all.take(i as int) == all);
    report
}

/// Outcomes absorbed in two runs are absorbed as one.
pub proof fn lemma_absorbed_in_turn(
    index: IndexView,
    first: Seq<Result<NoteView, ExtractError>>,
    then: Seq<Result<NoteView, ExtractError>>,
)
    ensures
        absorbed(index, first + then) == absorbed(absorbed(index, first), then),
    decreases then.len(),
{
    if then.len() > 0 {
        assert((first + then).drop_last() == first + then.drop_last());
        lemma_absorbed_in_turn(index, first, then.drop_last());
    }
}

/// A note in the index outlasts whatever a document yields.
pub proof fn lemma_absorbing_keeps(
    index: IndexView,
    outcomes: Seq<Result<NoteView, ExtractError>>,
    identity: Seq<char>,
)
    requires
        index.contains_key(identity),
    ensures
        absorbed(index, outcomes).contains_key(identity),
        absorbed(index, outcomes)[identity] == index[identity],
    decreases outcomes.len(),
{
    if outcomes.len() > 0 {
        lemma_absorbing_keeps(index, outcomes.drop_last(), identity);
    }
}

/// Whether the outcome is a note of the identity.
pub open spec fn yields(outcome: Result<NoteView, ExtractError>, identity: Seq<char>) -> bool {
    outcome matches Ok(note) && note.capturebot_id == identity
}

/// An identity that neither the index nor any outcome has is not in the
/// index afterwards.
pub proof fn lemma_absorbing_adds_only_what_is_yielded(
    index: IndexView,
    outcomes: Seq<Result<NoteView, ExtractError>>,
    identity: Seq<char>,
)
    requires
        !index.contains_key(identity),
        forall|j: int| 0 <= j < outcomes.len() ==> !yields(#[trigger] outcomes[j], identity),
    ensures
        !absorbed(index, outcomes).contains_key(identity),
    decreases outcomes.len(),
{
    if outcomes.len() > 0 {
        let shorter = outcomes.drop_last();
        assert forall|j: int| 0 <= j < shorter.len() implies !yields(
            #[trigger] shorter[j],
            identity,
        ) by {
            assert(shorter[j] == outcomes[j]);
        }
        lemma_absorbing_adds_only_what_is_yielded(index, shorter, identity);
        assert(!yields(outcomes[outcomes.len() - 1], identity));
    }
}

/// The first section of an identity is the one registered.
///
/// Among the outcomes of a document, let the one at `at` be a note of an
/// identity that the index lacks and that no earlier outcome yields. Then
/// the index holds that very note under the identity afterwards, whatever
/// the later outcomes are. So each qualifying section of one file gets its
/// own note, as long as their identities differ.
pub proof fn law_first_section_of_an_identity_stays(
    index: IndexView,
    outcomes: Seq<Result<NoteView, ExtractError>>,
    at: int,
    identity: Seq<char>,
)
    requires
        0 <= at < outcomes.len(),
        yields(outcomes[at], identity),
        !index.contains_key(identity),
        forall|j: int| 0 <= j < at ==> !yields(#[trigger] outcomes[j], identity),
    ensures
        absorbed(index, outcomes).contains_key(identity),
        absorbed(index, outcomes)[identity] == outcomes[at].unwrap(),
{
    let upto = outcomes.take(at + 1);
    let rest = outcomes.skip(at + 1);
    assert(outcomes == upto + rest);
    lemma_absorbed_in_turn(index, upto, rest);
    let earlier = upto.drop_last();
    assert forall|j: int| 0 <= j < earlier.len() implies !yields(
        #[trigger] earlier[j],
        identity,
    ) by {
        assert(earlier[j] == outcomes[j]);
    }
    lemma_absorbing_adds_only_what_is_yielded(index, earlier, identity);
    assert(upto.last() == outcomes[at]);
    lemma_absorbing_keeps(absorbed(index, upto), rest, identity);
}

/// Loading only adds.
///
/// Whatever documents are loaded, a note that the index holds stays under
/// its identity, unchanged.
pub proof fn law_loading_only_adds(
    index: IndexView,
    documents: Seq<DocumentView>,
    identity: Seq<char>,
)
    requires
        index.contains_key(identity),
    ensures
        loaded(index, documents).contains_key(identity),
        loaded(index, documents)[identity] == index[identity],
    decreases documents.len(),
{
    if documents.len() > 0 {
        law_loading_only_adds(index, documents.drop_last(), identity);
        lemma_absorbing_keeps(
            loaded(index, documents.drop_last()),
            section_outcomes(documents.last()),
            identity,
        );
    }
}

/// That `doc` gives the identifier, the source identity and the title of
/// `note`: its property drawer the first two, its title keyword the third.
pub open spec fn gives_back(doc: DocumentView, note: NoteView) -> bool {
    &&& property_value(doc.properties, LOCAL_ID_PROPERTY@) == Some(note.id)
    &&& property_value(doc.properties, CAPTUREBOT_ID_PROPERTY@) == Some(note.capturebot_id)
    &&& declared_title(doc.keywords) == Some(note.title)
}

/// A rescan recovers a note from a document that gives it back.
///
/// Let the identifier and the source identity of `note` be not empty, and
/// let `doc` give them and the title back. Then an index rebuilt from `doc`
/// alone holds, under that source identity, a note with the same source
/// identity, identifier and title. Whether a parser reads such a document
/// out of the text that was stored is not claimed here.
pub proof fn law_rescan_recovers_note(note: NoteView, doc: DocumentView)
    requires
        note.id.len() > 0,
        note.capturebot_id.len() > 0,
        gives_back(doc, note),
    ensures
        ({
            let rebuilt = loaded(Map::<Seq<char>, NoteView>::empty(), seq![doc]);
            &&& rebuilt.contains_key(note.capturebot_id)
            &&& rebuilt[note.capturebot_id].capturebot_id == note.capturebot_id
            &&& rebuilt[note.capturebot_id].id == note.id
            &&& rebuilt[note.capturebot_id].title == note.title
        }),
{
    let empty = Map::<Seq<char>, NoteView>::empty();
    let documents = seq![doc];
    assert(loaded(empty, documents.drop_last()) == empty);
    let root = seq![document_note(doc)];
    let below = doc.children.map_values(|h: HeadingView| heading_note(h, doc));
    lemma_absorbed_in_turn(empty, root, below);
    assert(absorbed(empty, root.drop_last()) == empty);
    lemma_absorbing_keeps(absorbed(empty, root), below, note.capturebot_id);
}

} // verus!
