//! The inbound message event: what the engine needs to know of a message,
//! whichever platform or export it came from.

use crate::config::CapturebotConfig;
use crate::text::option_text;
use vstd::prelude::*;

verus! {

/// A hyperlink embedded in a message.
#[derive(Clone, Debug, PartialEq, Eq)]
pub enum EventLink {
    /// A bare address.
    Raw(String),
    /// An address behind anchor text.
    Anchored { text: String, href: String },
}

/// An inbound message.
#[derive(Clone, Debug, PartialEq, Eq)]
pub struct MessageEvent {
    /// The identity of the message in its source system.
    pub id: String,
    /// Who sent it, where that is known.
    pub sender: Option<u64>,
    /// When it was sent: whole seconds since the Unix epoch.
    pub date: i64,
    /// Its textual content, if it has any.
    pub text: Option<String>,
    /// The hyperlinks embedded in it, in order.
    pub links: Vec<EventLink>,
    /// The identity of the message it replies to.
    pub reply_to: Option<String>,
}

/// A hyperlink, as mathematics.
pub enum LinkView {
    Raw(Seq<char>),
    Anchored { text: Seq<char>, href: Seq<char> },
}

/// A message event, as mathematics.
pub struct EventView {
    pub id: Seq<char>,
    pub sender: Option<u64>,
    pub date: int,
    pub text: Option<Seq<char>>,
    pub links: Seq<LinkView>,
    pub reply_to: Option<Seq<char>>,
}

impl View for EventLink {
    type V = LinkView;

    open spec fn view(&self) -> LinkView {
        match *self {
            EventLink::Raw(address) => LinkView::Raw(address@),
            EventLink::Anchored { text, href } => LinkView::Anchored { text: text@, href: href@ },
        }
    }
}

/// The links of a message, as mathematics.
pub open spec fn links_view(links: Seq<EventLink>) -> Seq<LinkView> {
    links.map_values(|link: EventLink| link@)
}

impl View for MessageEvent {
    type V = EventView;

    open spec fn view(&self) -> EventView {
        EventView {
            id: self.id@,
            sender: self.sender,
            date: self.date as int,
            text: option_text(self.text),
            links: links_view(self.links@),
            reply_to: option_text(self.reply_to),
        }
    }
}

/// An event is eligible for capture when it has text and comes from the
/// one sender whose messages are captured.
pub open spec fn event_is_valid(event: EventView, user_id: u64) -> bool {
    event.text is Some && event.sender == Some(user_id)
}

/// Eligibility of a message for capture.
pub trait ValidMessage<C>: Sized {
    fn is_valid_msg(msg: Self, config: C) -> bool;
}

impl ValidMessage<&CapturebotConfig> for MessageEvent {
    fn is_valid_msg(msg: Self, config: &CapturebotConfig) -> (valid: bool)
        ensures
            valid == event_is_valid(msg@, config.user_id),
    {
        match msg.sender {
            Some(sender) => msg.text.is_some() && sender == config.user_id,
            None => false,
        }
    }
}

} // verus!
