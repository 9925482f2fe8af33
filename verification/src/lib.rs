//! Capture of chat messages as cross-linked outline notes.
//!
//! Messages arrive as events, live or from a batch export. The materializer
//! makes a note of each; the write path has it stored at most once; the
//! index, rebuilt from the stored documents on start-up, tells which
//! messages are captured and resolves replies into back-links.

pub mod backup;
pub mod config;
pub mod decimal;
pub mod document;
pub mod event;
pub mod index;
pub mod live;
pub mod materialize;
pub mod note;
pub mod scan;
pub mod store;
pub mod text;
pub mod trusted;

pub use crate::backup::{add_backup_note, BackupEntity, BackupEntityKind, BackupMessage};
pub use crate::config::CapturebotConfig;
pub use crate::event::{EventLink, MessageEvent, ValidMessage};
pub use crate::index::NoteIndex;
pub use crate::live::{LiveEntity, LiveEntityKind, LiveMessage};
pub use crate::note::{
    CapturebotNote, ContextualFrom, CAPTUREBOT_ID_PROPERTY, CAPTUREBOT_PARENT_ID_PROPERTY,
};
pub use crate::scan::{load_notes, load_scanned};
pub use crate::store::{add_event, add_note};
