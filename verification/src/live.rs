//! Messages as the chat platform delivers them, and how they become message
//! events.

use crate::config::CapturebotConfig;
use crate::decimal::{decimal, i32_to_decimal};
use crate::event::{
    event_is_valid, links_view, EventLink, EventView, LinkView, MessageEvent, ValidMessage,
};
use crate::index::NoteIndex;
use crate::materialize::{
    is_file_slug, materialize_failure, materialized, title_slug, MaterializeError,
};
use crate::note::{CapturebotNote, ContextualFrom};
use crate::text::{clone_option_text, option_text};
use crate::trusted::is_generated_id;
use vstd::prelude::*;

verus! {

/// What a span of a live message is marked as, as far as links go.
#[derive(Clone, Debug, PartialEq, Eq)]
pub enum LiveEntityKind {
    /// The span is an address.
    Url,
    /// The span is anchor text for an address.
    TextLink { url: String },
    /// Any other marking.
    Other,
}

/// A marked span of a live message.
#[derive(Clone, Debug, PartialEq, Eq)]
pub struct LiveEntity {
    pub kind: LiveEntityKind,
    /// The text that the span covers.
    pub text: String,
}

/// A message as the chat platform delivers it.
#[derive(Clone, Debug, PartialEq, Eq)]
pub struct LiveMessage {
    pub id: i32,
    /// The sender's identity; nobody for a message sent to a channel.
    pub from: Option<u64>,
    /// When it was sent: whole seconds since the Unix epoch.
    pub date: i64,
    /// The text, where the message is a text message.
    pub text: Option<String>,
    pub entities: Vec<LiveEntity>,
    /// The number of the message replied to.
    pub reply_to_message_id: Option<i32>,
}

/// The link that a span of a live message gives, if it is one. Either way
/// it is the bare address: the span itself, or what the span links to.
pub open spec fn live_link(entity: LiveEntity) -> Option<LinkView> {
    match entity.kind {
        LiveEntityKind::Url => Some(LinkView::Raw(entity.text@)),
        LiveEntityKind::TextLink { url } => Some(LinkView::Raw(url@)),
        LiveEntityKind::Other => None,
    }
}

/// The links among the spans of a live message, in order.
pub open spec fn live_links(entities: Seq<LiveEntity>) -> Seq<LinkView>
    decreases entities.len(),
{
    if entities.len() == 0 {
        Seq::empty()
    } else {
        let before = live_links(entities.drop_last());
        match live_link(entities.last()) {
            Some(link) => before.push(link),
            None => before,
        }
    }
}

/// The event that a live message stands for. Its identity is its number in
/// decimal notation, and so is that of the message replied to.
pub open spec fn live_event(msg: LiveMessage) -> EventView {
    EventView {
        id: decimal(msg.id as int),
        sender: msg.from,
        date: msg.date as int,
        text: option_text(msg.text),
        links: live_links(msg.entities@),
        reply_to: match msg.reply_to_message_id {
            Some(n) => Some(decimal(n as int)),
            None => None,
        },
    }
}

/// Collects the links among the spans of a live message.
pub fn live_links_of(entities: &Vec<LiveEntity>) -> (links: Vec<EventLink>)
    ensures
        links_view(links@) == live_links(entities@),
{
    let mut links: Vec<EventLink> = Vec::new();
    let mut i: usize = 0;
    while i < entities.len()
        invariant
            i <= entities.len(),
            links_view(links@) == live_links(entities@.take(i as int)),
        decreases entities.len() - i,
    {
        let entity = &entities[i];
        assert(entities@.take(i + 1).drop_last() == entities@.take(i as int));
        match &entity.kind {
            LiveEntityKind::Url => {
                links.push(EventLink::Raw(entity.text.clone()));
            },
            LiveEntityKind::TextLink { url } => {
                links.push(EventLink::Raw(url.clone()));
            },
            LiveEntityKind::Other => {},
        }
        i += 1;
    }
    assert(entities@.take(i as int) == entities@);
    links
}

impl LiveMessage {
    /// The event that this message stands for.
    pub fn to_event(&self) -> (event: MessageEvent)
        ensures
            event@ == live_event(*self),
    {
        MessageEvent {
            id: i32_to_decimal(self.id),
            sender: self.from,
            date: self.date,
            text: clone_option_text(&self.text),
            links: live_links_of(&self.entities),
            reply_to: match self.reply_to_message_id {
                Some(n) => Some(i32_to_decimal(n)),
                None => None,
            },
        }
    }
}

impl ValidMessage<&CapturebotConfig> for LiveMessage {
    fn is_valid_msg(msg: Self, config: &CapturebotConfig) -> (valid: bool)
        ensures
            valid == event_is_valid(live_event(msg), config.user_id),
    {
        match msg.from {
            Some(sender) => msg.text.is_some() && sender == config.user_id,
            None => false,
        }
    }
}

impl ContextualFrom<LiveMessage, &NoteIndex, &CapturebotConfig> for CapturebotNote {
    type Error = MaterializeError;

    /// Makes the note of the event that `msg` stands for.
    fn contextual_from(
        msg: LiveMessage,
        notes: &NoteIndex,
        config: &CapturebotConfig,
    ) -> (made: Result<Self, Self::Error>)
        ensures
            match materialize_failure(live_event(msg)) {
                Some(error) => made == Err::<CapturebotNote, MaterializeError>(error),
                None => made is Ok && is_generated_id(made.unwrap().id@, true) && made.unwrap()@
                    == materialized(live_event(msg), made.unwrap().id@, notes@, config.save_dir@)
                    && is_file_slug(title_slug(made.unwrap().title@)),
            },
    {
        CapturebotNote::contextual_from(msg.to_event(), notes, config)
    }
}

} // verus!
