//! The note index: at most one note per source identity, and the first one
//! registered stays.

use crate::note::{CapturebotNote, NoteView};
use vstd::hash_map::StringHashMap;
use vstd::prelude::*;

verus! {

/// The model of an index: notes by source identity.
pub type IndexView = Map<Seq<char>, NoteView>;

/// The index after an attempt to register `note`: unchanged where the
/// identity is taken, else with `note` under its identity.
pub open spec fn registered(index: IndexView, note: NoteView) -> IndexView {
    if index.contains_key(note.capturebot_id) {
        index
    } else {
        index.insert(note.capturebot_id, note)
    }
}

/// The in-memory map from source identity to note. It only grows.
pub struct NoteIndex {
    notes: StringHashMap<CapturebotNote>,
}

impl View for NoteIndex {
    type V = IndexView;

    closed spec fn view(&self) -> IndexView {
        self.notes@.map_values(|n: CapturebotNote| n@)
    }
}

impl NoteIndex {
    /// Every note is held under its own source identity.
    #[verifier::type_invariant]
    closed spec fn well_keyed(self) -> bool {
        forall|k: Seq<char>| #[trigger]
            self.notes@.contains_key(k) ==> self.notes@[k].capturebot_id@ == k
    }

    /// The empty index.
    pub fn new() -> (index: Self)
        ensures
            index@ == Map::<Seq<char>, NoteView>::empty(),
    {
        NoteIndex { notes: StringHashMap::new() }
    }

    /// Whether a note is registered under `identity`.
    pub fn contains_key(&self, identity: &str) -> (present: bool)
        ensures
            present == self@.contains_key(identity@),
    {
        self.notes.contains_key(identity)
    }

    /// The note registered under `identity`, if there is one.
    pub fn lookup(&self, identity: &str) -> (found: Option<&CapturebotNote>)
        ensures
            match found {
                Some(note) => self@.contains_key(identity@) && note@ == self@[identity@]
                    && note.capturebot_id@ == identity@,
                None => !self@.contains_key(identity@),
            },
    {
        proof {
            use_type_invariant(self);
        }
        self.notes.get(identity)
    }

    /// Registers `note` unless its source identity is taken, and says
    /// whether it did. A note that is registered is never replaced.
    pub fn register(&mut self, note: CapturebotNote) -> (inserted: bool)
        ensures
            inserted == !old(self)@.contains_key(note.capturebot_id@),
            final(self)@ == registered(old(self)@, note@),
    {
        proof {
            use_type_invariant(&*self);
        }
        if self.notes.contains_key(note.capturebot_id.as_str()) {
            false
        } else {
            let key = note.capturebot_id.clone();
            let mut notes = StringHashMap::new();
            std::mem::swap(&mut self.notes, &mut notes);
            notes.insert(key, note);
            self.notes = notes;
            true
        }
    }

    /// The number of notes.
    pub fn len(&self) -> (n: usize)
        ensures
            n == self@.len(),
    {
        let n = self.notes.len();
        proof {
            broadcast use vstd::hash_map::group_hash_map_axioms;

            assert(self@.dom() =~= self.notes@.dom());
        }
        n
    }

    /// Whether no note is registered.
    pub fn is_empty(&self) -> (empty: bool)
        ensures
            empty == (self@.len() == 0),
    {
        self.len() == 0
    }
}

/// The first writer wins.
///
/// Of two notes with one source identity and different identifiers of
/// their own, registered one after the other, the second changes nothing;
/// where the identity was free, the index holds the first under it, and so
/// not the second.
pub proof fn law_first_writer_wins(index: IndexView, first: NoteView, second: NoteView)
    requires
        first.capturebot_id == second.capturebot_id,
        first.id != second.id,
    ensures
        registered(registered(index, first), second) == registered(index, first),
        !index.contains_key(first.capturebot_id) ==> {
            let both = registered(registered(index, first), second);
            &&& both.contains_key(first.capturebot_id)
            &&& both[first.capturebot_id] == first
            &&& both[first.capturebot_id] != second
            &&& both.dom() == index.dom().insert(first.capturebot_id)
        },
{
}

} // verus!
