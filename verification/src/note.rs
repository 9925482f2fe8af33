//! The note: the durable unit that a captured message becomes.

use crate::text::{clone_option_text, option_text};
use vstd::prelude::*;

verus! {

/// The property that carries the identity of the captured message.
pub const CAPTUREBOT_ID_PROPERTY: &'static str = "CAPTUREBOT_MESSAGE_ID";

/// The property that carries the identity of the message replied to.
pub const CAPTUREBOT_PARENT_ID_PROPERTY: &'static str = "CAPTUREBOT_PARENT_MESSAGE_ID";

/// The property that carries a note's own identifier.
pub const LOCAL_ID_PROPERTY: &'static str = "ID";

/// A captured message, as it is (or is about to be) stored in one document.
#[derive(Debug, PartialEq, Eq)]
pub struct CapturebotNote {
    /// The note's own identifier, the target of back-links.
    pub id: String,
    /// Where the document that holds the note lies.
    pub path: String,
    /// The identity of the message in the system it came from.
    pub capturebot_id: String,
    /// The identity of the message this one replied to, known or not.
    pub _capturebot_parent: Option<String>,
    /// The display title.
    pub title: String,
    /// The full text of the document.
    pub body: String,
}

/// What a note holds, as mathematics.
pub struct NoteView {
    pub id: Seq<char>,
    pub path: Seq<char>,
    pub capturebot_id: Seq<char>,
    pub parent: Option<Seq<char>>,
    pub title: Seq<char>,
    pub body: Seq<char>,
}

impl View for CapturebotNote {
    type V = NoteView;

    open spec fn view(&self) -> NoteView {
        NoteView {
            id: self.id@,
            path: self.path@,
            capturebot_id: self.capturebot_id@,
            parent: option_text(self._capturebot_parent),
            title: self.title@,
            body: self.body@,
        }
    }
}

impl Clone for CapturebotNote {
    fn clone(&self) -> (copy: Self)
        ensures
            copy == *self,
    {
        CapturebotNote {
            id: self.id.clone(),
            path: self.path.clone(),
            capturebot_id: self.capturebot_id.clone(),
            _capturebot_parent: clone_option_text(&self._capturebot_parent),
            title: self.title.clone(),
            body: self.body.clone(),
        }
    }
}

} // verus!

verus! {

/// Making a value out of another, in the light of a context and a
/// configuration, where that can fail.
pub trait ContextualFrom<S, X, C>: Sized {
    type Error;

    fn contextual_from(value: S, context: X, config: C) -> Result<Self, Self::Error>;
}

} // verus!

verus! {

/// The outcome of making a note, as mathematics.
pub open spec fn outcome_view<E>(outcome: Result<CapturebotNote, E>) -> Result<NoteView, E> {
    match outcome {
        Ok(note) => Ok(note@),
        Err(error) => Err(error),
    }
}

} // verus!
