//! The write path: a note is stored at most once, and the index learns of
//! it only after its document was written.
//!
//! Writing is not done here. `submit` decides what has to happen, the
//! caller does it, and `conclude` takes the outcome. `submitted` is the
//! model of the whole exchange, over the index and the writes performed.

use crate::config::CapturebotConfig;
use crate::event::{EventView, MessageEvent};
use crate::live::{live_event, LiveMessage};
use crate::index::{registered, IndexView, NoteIndex};
use crate::materialize::{
    is_file_slug, materialize_failure, materialized, title_slug, MaterializeError,
};
use crate::note::{CapturebotNote, ContextualFrom, NoteView};
use crate::trusted::is_generated_id;
use vstd::prelude::*;
use vstd::string::*;

verus! {

/// What is to be done about a note handed in for storage.
#[derive(Debug, PartialEq, Eq)]
pub enum Submission {
    /// The identity is in the index already. Nothing is to be done, and
    /// that is a success.
    AlreadyCaptured,
    /// The body of this note is to be written at its path, and the outcome
    /// reported with `conclude`.
    Write(CapturebotNote),
}

/// A submission, as mathematics.
pub enum SubmissionView {
    AlreadyCaptured,
    Write(NoteView),
}

impl View for Submission {
    type V = SubmissionView;

    open spec fn view(&self) -> SubmissionView {
        match *self {
            Submission::AlreadyCaptured => SubmissionView::AlreadyCaptured,
            Submission::Write(note) => SubmissionView::Write(note@),
        }
    }
}

/// Why a submission did not end in a stored note.
#[derive(Clone, Copy, Debug, PartialEq, Eq, Structural)]
pub enum SubmitError {
    /// The document could not be written. The message counts as not yet
    /// captured and may be submitted again.
    WriteFailed,
}

impl SubmitError {
    /// The error in words.
    pub fn message(&self) -> (words: String)
        ensures
            words@ == "the note could not be written"@,
    {
        String::from_str("the note could not be written")
    }
}

/// What `submit` decides: nothing for an identity that is known, a write
/// for any other.
pub open spec fn planned(index: IndexView, note: NoteView) -> SubmissionView {
    if index.contains_key(note.capturebot_id) {
        SubmissionView::AlreadyCaptured
    } else {
        SubmissionView::Write(note)
    }
}

/// The index once the outcome of a write is known: the note is registered
/// after a write that succeeded, and only then.
pub open spec fn concluded(index: IndexView, note: NoteView, written: bool) -> IndexView {
    if written {
        registered(index, note)
    } else {
        index
    }
}

/// One document written.
pub struct FileWrite {
    pub path: Seq<char>,
    pub body: Seq<char>,
}

/// The index together with the writes performed so far.
pub struct StoreModel {
    pub index: IndexView,
    pub writes: Seq<FileWrite>,
}

/// The store after a note went through `submit`, the write that it may
/// have asked for (which succeeds or not) and `conclude`.
pub open spec fn submitted(store: StoreModel, note: NoteView, write_succeeds: bool) -> StoreModel {
    match planned(store.index, note) {
        SubmissionView::AlreadyCaptured => store,
        SubmissionView::Write(n) => StoreModel {
            index: concluded(store.index, n, write_succeeds),
            writes: if write_succeeds {
                store.writes.push(FileWrite { path: n.path, body: n.body })
            } else {
                store.writes
            },
        },
    }
}

/// What is decided about an inbound event, given the index as it is now.
///
/// An event whose identity is in the index is captured already. Any other
/// is made into a note under a freshly drawn identifier, and the note is
/// to be written; where it cannot be made into one, that failure is the
/// decision.
pub open spec fn step_is_decided(
    step: Result<Submission, MaterializeError>,
    event: EventView,
    index: IndexView,
    save_dir: Seq<char>,
) -> bool {
    if index.contains_key(event.id) {
        step == Ok::<Submission, MaterializeError>(Submission::AlreadyCaptured)
    } else {
        match materialize_failure(event) {
            Some(error) => step == Err::<Submission, MaterializeError>(error),
            None => step matches Ok(Submission::Write(note)) && is_generated_id(note.id@, true)
                && note@ == materialized(event, note.id@, index, save_dir) && is_file_slug(
                title_slug(note.title@),
            ),
        }
    }
}

/// Decides what is to be done about `note`. The index is not changed.
pub fn submit(notes: &NoteIndex, note: CapturebotNote) -> (step: Submission)
    ensures
        step@ == planned(notes@, note@),
        step matches Submission::Write(n) ==> n == note,
{
    if notes.contains_key(note.capturebot_id.as_str()) {
        Submission::AlreadyCaptured
    } else {
        Submission::Write(note)
    }
}

/// Takes the outcome of the write that `submit` asked for: registers the
/// note if it was written, and leaves the index as it was if not.
pub fn conclude(
    notes: &mut NoteIndex,
    note: CapturebotNote,
    written: bool,
) -> (done: Result<(), SubmitError>)
    ensures
        final(notes)@ == concluded(old(notes)@, note@, written),
        written ==> done == Ok::<(), SubmitError>(()),
        !written ==> done == Err::<(), SubmitError>(SubmitError::WriteFailed),
{
    if written {
        notes.register(note);
        Ok(())
    } else {
        Err(SubmitError::WriteFailed)
    }
}

/// Decides what is to be done about an inbound event: nothing where its
/// identity is in the index, else the write of the note made of it.
pub fn add_event(
    msg: MessageEvent,
    notes: &NoteIndex,
    config: &CapturebotConfig,
) -> (step: Result<Submission, MaterializeError>)
    ensures
        step_is_decided(step, msg@, notes@, config.save_dir@),
{
    if notes.contains_key(msg.id.as_str()) {
        Ok(Submission::AlreadyCaptured)
    } else {
        match CapturebotNote::contextual_from(msg, notes, config) {
            Ok(note) => Ok(submit(notes, note)),
            Err(error) => Err(error),
        }
    }
}

/// Decides what is to be done about a live message: what `add_event`
/// decides about the event that it stands for.
pub fn add_note(
    msg: LiveMessage,
    notes: &NoteIndex,
    config: &CapturebotConfig,
) -> (step: Result<Submission, MaterializeError>)
    ensures
        step_is_decided(step, live_event(msg), notes@, config.save_dir@),
{
    add_event(msg.to_event(), notes, config)
}

/// Submission is idempotent.
///
/// A note submitted twice, its write succeeding the first time, is written
/// at most once and registered once: the second submission finds the
/// identity taken, asks for no write and changes nothing, whatever a write
/// would have come to. Where the identity was free at first, exactly one
/// write is added and the index holds the note under its identity.
pub proof fn law_submit_is_idempotent(store: StoreModel, note: NoteView, again_succeeds: bool)
    ensures
        ({
            let once = submitted(store, note, true);
            let twice = submitted(once, note, again_succeeds);
            &&& planned(once.index, note) == SubmissionView::AlreadyCaptured
            &&& twice == once
            &&& twice.index.contains_key(note.capturebot_id)
            &&& store.index.contains_key(note.capturebot_id) ==> twice == store
            &&& !store.index.contains_key(note.capturebot_id) ==> {
                &&& twice.index == store.index.insert(note.capturebot_id, note)
                &&& twice.writes == store.writes.push(
                    FileWrite { path: note.path, body: note.body },
                )
            }
        }),
{
}

/// A write that fails leaves no trace in the index.
pub proof fn law_failed_write_changes_nothing(store: StoreModel, note: NoteView)
    ensures
        submitted(store, note, false) == store,
{
}

} // verus!
