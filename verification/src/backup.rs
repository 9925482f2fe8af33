//! Messages of a batch export, and how they become message events.
//!
//! An exported message goes the way of a live one: it is turned into a
//! `MessageEvent` and handed to the same materializer and the same write
//! path, against the same index.

use crate::config::CapturebotConfig;
use crate::decimal::{decimal, i32_to_decimal, parse_u64, parsed_u64};
use crate::event::{links_view, EventLink, EventView, LinkView, MessageEvent, ValidMessage};
use crate::index::NoteIndex;
use crate::materialize::{
    is_file_slug, materialize_failure, materialized, title_slug, MaterializeError,
};
use crate::note::{CapturebotNote, ContextualFrom};
use crate::store::{add_event, step_is_decided, Submission};
use crate::text::{chars_of, matches_at, starts_with, string_of_range};
use crate::trusted::is_generated_id;
use vstd::prelude::*;
use vstd::string::*;

verus! {

/// What a span of an exported message is marked as.
#[derive(Clone, Debug, PartialEq, Eq)]
pub enum BackupEntityKind {
    Plain,
    Mention,
    Hashtag,
    Cashtag,
    BotCommand,
    Url,
    Email,
    PhoneNumber,
    Bold,
    Blockquote,
    ExpandableBlockquote,
    Italic,
    Underline,
    Strikethrough,
    Spoiler,
    Code,
    Pre { language: Option<String> },
    TextLink { href: String },
    TextMention { user_id: u64 },
    CustomEmoji { custom_emoji_id: String },
}

/// A marked span of an exported message.
#[derive(Clone, Debug, PartialEq, Eq)]
pub struct BackupEntity {
    pub kind: BackupEntityKind,
    pub text: String,
}

/// A piece of the text of an exported message.
#[derive(Clone, Debug, PartialEq, Eq)]
pub enum TextPart {
    Plain(String),
    Entity(BackupEntity),
}

/// The text of an exported message: in one piece, or in spans.
#[derive(Clone, Debug, PartialEq, Eq)]
pub enum BackupText {
    Whole(String),
    Parts(Vec<TextPart>),
}

/// A message of a batch export.
#[derive(Clone, Debug, PartialEq, Eq)]
pub struct BackupMessage {
    pub id: i32,
    /// The sender's display name.
    pub from: String,
    pub from_id: u64,
    /// When it was sent: whole seconds since the Unix epoch.
    pub date: i64,
    pub text: BackupText,
    pub media_type: Option<String>,
    pub reply_to_message_id: Option<i32>,
    pub entities: Vec<BackupEntity>,
}

/// The text of one piece.
pub open spec fn part_text(part: TextPart) -> Seq<char> {
    match part {
        TextPart::Plain(text) => text@,
        TextPart::Entity(entity) => entity.text@,
    }
}

/// The texts of the pieces, one after the other.
pub open spec fn parts_text(parts: Seq<TextPart>) -> Seq<char>
    decreases parts.len(),
{
    if parts.len() == 0 {
        Seq::empty()
    } else {
        parts_text(parts.drop_last()) + part_text(parts.last())
    }
}

/// The text of an exported message as one piece.
pub open spec fn backup_text(text: BackupText) -> Seq<char> {
    match text {
        BackupText::Whole(whole) => whole@,
        BackupText::Parts(parts) => parts_text(parts@),
    }
}

impl BackupText {
    /// The text as one string.
    pub fn to_string(&self) -> (whole: String)
        ensures
            whole@ == backup_text(*self),
    {
        match self {
            BackupText::Whole(whole) => whole.clone(),
            BackupText::Parts(parts) => {
                let mut whole = String::new();
                let mut i: usize = 0;
                while i < parts.len()
                    invariant
                        i <= parts.len(),
                        whole@ == parts_text(parts@.take(i as int)),
                    decreases parts.len() - i,
                {
                    assert(parts@.take(i + 1).drop_last() == parts@.take(i as int));
                    match &parts[i] {
                        TextPart::Plain(text) => whole.append(text.as_str()),
                        TextPart::Entity(entity) => whole.append(entity.text.as_str()),
                    }
                    i += 1;
                }
                assert(parts@.take(i as int) == parts@);
                whole
            },
        }
    }
}

/// The link that a span gives, if it is one: a span marked as an address
/// is its own address, a span that links elsewhere an anchored link.
pub open spec fn entity_link(entity: BackupEntity) -> Option<LinkView> {
    match entity.kind {
        BackupEntityKind::Url => Some(LinkView::Raw(entity.text@)),
        BackupEntityKind::TextLink { href } => Some(
            LinkView::Anchored { text: entity.text@, href: href@ },
        ),
        _ => None,
    }
}

/// The links among the spans, in order.
pub open spec fn backup_links(entities: Seq<BackupEntity>) -> Seq<LinkView>
    decreases entities.len(),
{
    if entities.len() == 0 {
        Seq::empty()
    } else {
        let before = backup_links(entities.drop_last());
        match entity_link(entities.last()) {
            Some(link) => before.push(link),
            None => before,
        }
    }
}

/// The identity of an optional message number.
pub open spec fn optional_decimal(n: Option<i32>) -> Option<Seq<char>> {
    match n {
        Some(n) => Some(decimal(n as int)),
        None => None,
    }
}

/// The event that an exported message stands for. Its identity is its
/// number in decimal notation, and so is that of the message replied to.
pub open spec fn backup_event(msg: BackupMessage) -> EventView {
    EventView {
        id: decimal(msg.id as int),
        sender: Some(msg.from_id),
        date: msg.date as int,
        text: Some(backup_text(msg.text)),
        links: backup_links(msg.entities@),
        reply_to: optional_decimal(msg.reply_to_message_id),
    }
}

/// An exported message is eligible for capture when its text is not empty
/// and it comes from the one sender whose messages are captured.
pub open spec fn backup_is_valid(msg: BackupMessage, user_id: u64) -> bool {
    backup_text(msg.text).len() > 0 && msg.from_id == user_id
}

/// Collects the links among the spans of a message.
pub fn links_of(entities: &Vec<BackupEntity>) -> (links: Vec<EventLink>)
    ensures
        links_view(links@) == backup_links(entities@),
{
    let mut links: Vec<EventLink> = Vec::new();
    let mut i: usize = 0;
    while i < entities.len()
        invariant
            i <= entities.len(),
            links_view(links@) == backup_links(entities@.take(i as int)),
        decreases entities.len() - i,
    {
        let entity = &entities[i];
        assert(entities@.take(i + 1).drop_last() == entities@.take(i as int));
        match &entity.kind {
            BackupEntityKind::Url => {
                links.push(EventLink::Raw(entity.text.clone()));
            },
            BackupEntityKind::TextLink { href } => {
                links.push(
                    EventLink::Anchored { text: entity.text.clone(), href: href.clone() },
                );
            },
            _ => {},
        }
        i += 1;
    }
    assert(entities@.take(i as int) == entities@);
    links
}

impl BackupMessage {
    /// The event that this message stands for.
    pub fn to_event(&self) -> (event: MessageEvent)
        ensures
            event@ == backup_event(*self),
    {
        MessageEvent {
            id: i32_to_decimal(self.id),
            sender: Some(self.from_id),
            date: self.date,
            text: Some(self.text.to_string()),
            links: links_of(&self.entities),
            reply_to: match self.reply_to_message_id {
                Some(n) => Some(i32_to_decimal(n)),
                None => None,
            },
        }
    }
}

impl ValidMessage<&CapturebotConfig> for BackupMessage {
    fn is_valid_msg(msg: Self, config: &CapturebotConfig) -> (valid: bool)
        ensures
            valid == backup_is_valid(msg, config.user_id),
    {
        !msg.text.to_string().as_str().is_empty() && msg.from_id == config.user_id
    }
}

impl ContextualFrom<BackupMessage, &NoteIndex, &CapturebotConfig> for CapturebotNote {
    type Error = MaterializeError;

    /// Makes the note of the event that `msg` stands for.
    fn contextual_from(
        msg: BackupMessage,
        notes: &NoteIndex,
        config: &CapturebotConfig,
    ) -> (made: Result<Self, Self::Error>)
        ensures
            match materialize_failure(backup_event(msg)) {
                Some(error) => made == Err::<CapturebotNote, MaterializeError>(error),
                None => made is Ok && is_generated_id(made.unwrap().id@, true) && made.unwrap()@
                    == materialized(
                    backup_event(msg),
                    made.unwrap().id@,
                    notes@,
                    config.save_dir@,
                ) && is_file_slug(title_slug(made.unwrap().title@)),
            },
    {
        CapturebotNote::contextual_from(msg.to_event(), notes, config)
    }
}

/// Decides what is to be done about an exported message: what `add_event`
/// decides about the event that it stands for.
pub fn add_backup_note(
    msg: BackupMessage,
    notes: &NoteIndex,
    config: &CapturebotConfig,
) -> (step: Result<Submission, MaterializeError>)
    ensures
        step_is_decided(step, backup_event(msg), notes@, config.save_dir@),
{
    add_event(msg.to_event(), notes, config)
}

/// The prefix of a sender's identity in an export.
pub const SENDER_PREFIX: &'static str = "user";

/// The sender that an export names as `raw`: the number after the prefix,
/// or zero where what follows is no number that fits; nobody where the
/// prefix is missing.
pub open spec fn sender_of(raw: Seq<char>) -> Option<u64> {
    if starts_with(raw, SENDER_PREFIX@) {
        match parsed_u64(raw.skip(SENDER_PREFIX@.len() as int)) {
            Some(id) => Some(id),
            None => Some(0),
        }
    } else {
        None
    }
}

/// Reads the identity of a sender as an export writes it.
pub fn sender_id_of(raw: &str) -> (sender: Option<u64>)
    ensures
        sender == sender_of(raw@),
{
    let chars = chars_of(raw);
    let prefix = chars_of(SENDER_PREFIX);
    if matches_at(&chars, 0, &prefix) {
        let rest = string_of_range(&chars, prefix.len(), chars.len());
        match parse_u64(rest.as_str()) {
            Some(id) => Some(id),
            None => Some(0),
        }
    } else {
        None
    }
}

} // verus!
