//! The note materializer: from an inbound message to the note that will be
//! stored for it.
//!
//! The layout of a note is stated once, in `note_body`, over plain text.
//! `compose_note` builds exactly that from parts it is handed;
//! `materialize_with_id` has the time stamps and the slug made and hands
//! them over; `contextual_from` draws the note's identifier first.

use crate::config::CapturebotConfig;
use crate::event::{links_view, EventLink, EventView, LinkView, MessageEvent};
use crate::index::{registered, IndexView, NoteIndex};
use crate::note::{
    CapturebotNote, ContextualFrom, NoteView, CAPTUREBOT_ID_PROPERTY,
    CAPTUREBOT_PARENT_ID_PROPERTY, LOCAL_ID_PROPERTY,
};
use crate::text::{
    chars_are_blank, chars_of, clone_option_text, first_line, first_line_of, is_blank, joined,
    lemma_occurs_between, lemma_occurs_widen, occurs_in, option_text,
};
use crate::trusted::{
    format_utc, fresh_id, is_generated_id, is_slug_char, make_slug, slugified, utc_formatted,
    utc_representable, CREATED_STAMP, FILE_STAMP, TITLE_STAMP,
};
use vstd::prelude::*;
use vstd::string::*;

verus! {

/// What a made-up title starts with; the time of the message follows.
pub const TITLE_FALLBACK: &'static str = "capturebot note made at ";

/// The greatest length of the slug in a file name.
pub const SLUG_LENGTH: usize = 30;

/// Why a message could not be made into a note.
#[derive(Clone, Copy, Debug, PartialEq, Eq, Structural)]
pub enum MaterializeError {
    /// The message has no textual content: there is nothing to capture.
    NoText,
    /// The time of the message lies outside the calendar.
    InvalidTimestamp,
}

impl MaterializeError {
    /// The error in words.
    pub fn message(&self) -> (words: String)
        ensures
            words@ == match *self {
                MaterializeError::NoText => "the message has no text"@,
                MaterializeError::InvalidTimestamp => "the time of the message is out of range"@,
            },
    {
        match self {
            MaterializeError::NoText => String::from_str("the message has no text"),
            MaterializeError::InvalidTimestamp => String::from_str(
                "the time of the message is out of range",
            ),
        }
    }
}

/// The title of a note: the first line of the text, or, where the text is
/// blank, the fallback followed by a time stamp.
pub open spec fn title_of(text: Seq<char>, stamp: Seq<char>) -> Seq<char> {
    if is_blank(text) {
        TITLE_FALLBACK@ + stamp
    } else {
        first_line(text)
    }
}

/// How one link is written: a bare address as it is, an anchored one as a
/// bracketed pair.
pub open spec fn link_text(link: LinkView) -> Seq<char> {
    match link {
        LinkView::Raw(address) => address,
        LinkView::Anchored { text, href } => "[["@ + text + "]["@ + href + "]]"@,
    }
}

/// How the links of a message are written: each as `link_text` has it,
/// with a comma and a space between neighbours.
pub open spec fn links_text(links: Seq<LinkView>) -> Seq<char> {
    joined(links.map_values(|link: LinkView| link_text(link)), ", "@)
}

/// One line of a property block.
pub open spec fn property_line(name: Seq<char>, value: Seq<char>) -> Seq<char> {
    ":"@ + name + ": "@ + value + "\n"@
}

/// The property line that records the message replied to, if there is one.
pub open spec fn parent_line(parent: Option<Seq<char>>) -> Seq<char> {
    match parent {
        Some(identity) => property_line(CAPTUREBOT_PARENT_ID_PROPERTY@, identity),
        None => Seq::empty(),
    }
}

/// The note of the message replied to, where the index knows it now.
pub open spec fn known_parent(index: IndexView, reply_to: Option<Seq<char>>) -> Option<NoteView> {
    match reply_to {
        Some(identity) => if index.contains_key(identity) {
            Some(index[identity])
        } else {
            None
        },
        None => None,
    }
}

/// The line that links back to the parent's note; nothing without one.
pub open spec fn back_link_line(parent: Option<NoteView>) -> Seq<char> {
    match parent {
        Some(note) => "* Related: [[id:"@ + note.id + "]["@ + note.title + "]]\n"@,
        None => Seq::empty(),
    }
}

/// The text of a note's document: the property block, the title line, the
/// content, the back-link line if any, and a closing empty line.
pub open spec fn note_body(
    local_id: Seq<char>,
    created: Seq<char>,
    capturebot_id: Seq<char>,
    parent: Option<Seq<char>>,
    links: Seq<char>,
    title: Seq<char>,
    text: Seq<char>,
    back_link: Seq<char>,
) -> Seq<char> {
    ":PROPERTIES:\n"@ + property_line(LOCAL_ID_PROPERTY@, local_id) + property_line(
        "CREATED"@,
        created,
    ) + property_line(CAPTUREBOT_ID_PROPERTY@, capturebot_id) + parent_line(parent)
        + property_line("ROAM_REFS"@, links) + ":END:\n#+title: "@ + title + "\n"@ + text + "\n"@
        + back_link + "\n"@
}

/// Where a note is stored: under the save root, named by time stamp and
/// slug.
pub open spec fn target_path(save_dir: Seq<char>, file_stamp: Seq<char>, slug: Seq<char>) -> Seq<
    char,
> {
    save_dir + "/"@ + file_stamp + "-"@ + slug + ".org"@
}

/// The note made of a message with text, from parts already at hand.
pub open spec fn composed(
    event: EventView,
    local_id: Seq<char>,
    title: Seq<char>,
    created: Seq<char>,
    file_stamp: Seq<char>,
    slug: Seq<char>,
    index: IndexView,
    save_dir: Seq<char>,
) -> NoteView {
    NoteView {
        id: local_id,
        path: target_path(save_dir, file_stamp, slug),
        capturebot_id: event.id,
        parent: event.reply_to,
        title,
        body: note_body(
            local_id,
            created,
            event.id,
            event.reply_to,
            links_text(event.links),
            title,
            event.text.unwrap(),
            back_link_line(known_parent(index, event.reply_to)),
        ),
    }
}

/// The title of the note made of a message sent at `date`.
pub open spec fn event_title(text: Seq<char>, date: int) -> Seq<char> {
    title_of(text, utc_formatted(date, TITLE_STAMP@))
}

/// The slug of a title, as it stands in a file name.
pub open spec fn title_slug(title: Seq<char>) -> Seq<char> {
    slugified(title, ""@, "-"@, Some(SLUG_LENGTH))
}

/// What a slug in a file name looks like: bounded in length, and made of
/// lower-case letters, digits and dashes only.
pub open spec fn is_file_slug(slug: Seq<char>) -> bool {
    &&& slug.len() <= SLUG_LENGTH
    &&& forall|i: int| 0 <= i < slug.len() ==> is_slug_char(#[trigger] slug[i]) || slug[i] == '-'
}

/// The note made of a message with text and a time inside the calendar,
/// given the identifier drawn for it and the index as it is now.
pub open spec fn materialized(
    event: EventView,
    local_id: Seq<char>,
    index: IndexView,
    save_dir: Seq<char>,
) -> NoteView {
    let title = event_title(event.text.unwrap(), event.date);
    composed(
        event,
        local_id,
        title,
        utc_formatted(event.date, CREATED_STAMP@),
        utc_formatted(event.date, FILE_STAMP@),
        title_slug(title),
        index,
        save_dir,
    )
}

/// Why a message cannot be made into a note, if it cannot.
pub open spec fn materialize_failure(event: EventView) -> Option<MaterializeError> {
    if event.text is None {
        Some(MaterializeError::NoText)
    } else if !utc_representable(event.date) {
        Some(MaterializeError::InvalidTimestamp)
    } else {
        None
    }
}

/// The title for `text`, with `stamp` at hand in case one has to be made
/// up.
pub fn choose_title(text: &str, stamp: &str) -> (title: String)
    ensures
        title@ == title_of(text@, stamp@),
{
    let chars = chars_of(text);
    if chars_are_blank(&chars) {
        String::from_str(TITLE_FALLBACK).concat(stamp)
    } else {
        first_line_of(&chars)
    }
}

/// Writes one link.
pub fn render_link(link: &EventLink) -> (written: String)
    ensures
        written@ == link_text(link@),
{
    match link {
        EventLink::Raw(address) => address.clone(),
        EventLink::Anchored { text, href } => String::from_str("[[").concat(text.as_str()).concat(
            "][",
        ).concat(href.as_str()).concat("]]"),
    }
}

/// Writes the links of a message as one comma-separated list.
pub fn render_links(links: &Vec<EventLink>) -> (written: String)
    ensures
        written@ == links_text(links_view(links@)),
{
    let ghost parts = links_view(links@).map_values(|link: LinkView| link_text(link));
    let mut written = String::new();
    let mut i: usize = 0;
    while i < links.len()
        invariant
            i <= links.len(),
            parts == links_view(links@).map_values(|link: LinkView| link_text(link)),
            parts.len() == links.len(),
            written@ == joined(parts.take(i as int), ", "@),
        decreases links.len() - i,
    {
        let one = render_link(&links[i]);
        assert(parts.take(i + 1).drop_last() == parts.take(i as int));
        if i > 0 {
            written.append(", ");
        }
        written.append(one.as_str());
        i += 1;
    }
    assert(parts.take(i as int) == parts);
    written
}

/// Appends one line of a property block to `out`.
pub fn push_property(out: &mut String, name: &str, value: &str)
    ensures
        final(out)@ == old(out)@ + property_line(name@, value@),
{
    out.append(":");
    out.append(name);
    out.append(": ");
    out.append(value);
    out.append("\n");
}

/// Writes the back-link to the note of the message replied to, if the
/// index holds that note now.
pub fn render_back_link(reply_to: &Option<String>, notes: &NoteIndex) -> (line: String)
    ensures
        line@ == back_link_line(known_parent(notes@, option_text(*reply_to))),
{
    match reply_to {
        Some(identity) => match notes.lookup(identity.as_str()) {
            Some(parent) => String::from_str("* Related: [[id:").concat(parent.id.as_str()).concat(
                "][",
            ).concat(parent.title.as_str()).concat("]]\n"),
            None => String::new(),
        },
        None => String::new(),
    }
}

/// Builds the note of `event` from parts that were made elsewhere: its
/// identifier, its title, the two time stamps and the slug.
///
/// Fails only where the event has no text.
pub fn compose_note(
    event: &MessageEvent,
    local_id: String,
    title: String,
    created: &str,
    file_stamp: &str,
    slug: &str,
    notes: &NoteIndex,
    config: &CapturebotConfig,
) -> (made: Result<CapturebotNote, MaterializeError>)
    ensures
        event.text is None ==> made == Err::<CapturebotNote, MaterializeError>(
            MaterializeError::NoText,
        ),
        event.text is Some ==> made is Ok && made.unwrap()@ == composed(
            event@,
            local_id@,
            title@,
            created@,
            file_stamp@,
            slug@,
            notes@,
            config.save_dir@,
        ),
{
    let text = match &event.text {
        Some(text) => text,
        None => {
            return Err(MaterializeError::NoText);
        },
    };
    let links = render_links(&event.links);
    let back_link = render_back_link(&event.reply_to, notes);
    let path = config.save_dir.clone().concat("/").concat(file_stamp).concat("-").concat(
        slug,
    ).concat(".org");

    let mut body = String::from_str(":PROPERTIES:\n");
    push_property(&mut body, LOCAL_ID_PROPERTY, local_id.as_str());
    push_property(&mut body, "CREATED", created);
    push_property(&mut body, CAPTUREBOT_ID_PROPERTY, event.id.as_str());
    if let Some(identity) = &event.reply_to {
        push_property(&mut body, CAPTUREBOT_PARENT_ID_PROPERTY, identity.as_str());
    }
    push_property(&mut body, "ROAM_REFS", links.as_str());
    body.append(":END:\n#+title: ");
    body.append(title.as_str());
    body.append("\n");
    body.append(text.as_str());
    body.append("\n");
    body.append(back_link.as_str());
    body.append("\n");

    Ok(
        CapturebotNote {
            id: local_id,
            path,
            capturebot_id: event.id.clone(),
            _capturebot_parent: clone_option_text(&event.reply_to),
            title,
            body,
        },
    )
}

} // verus!

verus! {

/// Makes the note of `event` under the identifier `local_id`: formats the
/// time of the message, settles the title, has the slug made, and composes.
///
/// Fails where the event has no text, and where its time lies outside the
/// calendar; on every other event it yields exactly `materialized`.
pub fn materialize_with_id(
    event: &MessageEvent,
    local_id: String,
    notes: &NoteIndex,
    config: &CapturebotConfig,
) -> (made: Result<CapturebotNote, MaterializeError>)
    ensures
        match materialize_failure(event@) {
            Some(error) => made == Err::<CapturebotNote, MaterializeError>(error),
            None => made is Ok && made.unwrap()@ == materialized(
                event@,
                local_id@,
                notes@,
                config.save_dir@,
            ) && is_file_slug(title_slug(made.unwrap().title@)),
        },
{
    let text = match &event.text {
        Some(text) => text,
        None => {
            return Err(MaterializeError::NoText);
        },
    };
    let created = match format_utc(event.date, CREATED_STAMP) {
        Some(created) => created,
        None => {
            return Err(MaterializeError::InvalidTimestamp);
        },
    };
    let file_stamp = format_utc(event.date, FILE_STAMP).unwrap();
    let title_stamp = format_utc(event.date, TITLE_STAMP).unwrap();
    let title = choose_title(text.as_str(), title_stamp.as_str());
    proof {
        reveal_strlit("-");
    }
    let slug = make_slug(title.as_str(), "", "-", Some(SLUG_LENGTH));
    compose_note(
        event,
        local_id,
        title,
        created.as_str(),
        file_stamp.as_str(),
        slug.as_str(),
        notes,
        config,
    )
}

impl ContextualFrom<MessageEvent, &NoteIndex, &CapturebotConfig> for CapturebotNote {
    type Error = MaterializeError;

    /// Makes the note of `msg` under a freshly drawn identifier, reading
    /// the index as it is at this moment.
    fn contextual_from(
        msg: MessageEvent,
        notes: &NoteIndex,
        config: &CapturebotConfig,
    ) -> (made: Result<Self, Self::Error>)
        ensures
            match materialize_failure(msg@) {
                Some(error) => made == Err::<CapturebotNote, MaterializeError>(error),
                None => made is Ok && is_generated_id(made.unwrap().id@, true) && made.unwrap()@
                    == materialized(msg@, made.unwrap().id@, notes@, config.save_dir@)
                    && is_file_slug(title_slug(made.unwrap().title@)),
            },
    {
        let local_id = fresh_id(true);
        materialize_with_id(&msg, local_id, notes, config)
    }
}

/// Whether a back-link is written depends on the moment.
///
/// A reply made into a note while the index does not hold its parent
/// records the parent's identity, as a field and as a property line, and
/// has no back-link line. The same message made into a note once the
/// parent is registered has a back-link line, and with it the parent's own
/// identifier, in its body.
pub proof fn law_back_link_follows_index(
    event: EventView,
    local_id: Seq<char>,
    index: IndexView,
    save_dir: Seq<char>,
    parent: NoteView,
)
    requires
        event.reply_to == Some(parent.capturebot_id),
        !index.contains_key(parent.capturebot_id),
    ensures
        ({
            let before = materialized(event, local_id, index, save_dir);
            let after = materialized(event, local_id, registered(index, parent), save_dir);
            &&& before.parent == Some(parent.capturebot_id)
            &&& occurs_in(parent_line(Some(parent.capturebot_id)), before.body)
            &&& back_link_line(known_parent(index, event.reply_to)) == Seq::<char>::empty()
            &&& after.parent == Some(parent.capturebot_id)
            &&& occurs_in(parent_line(Some(parent.capturebot_id)), after.body)
            &&& occurs_in(back_link_line(Some(parent)), after.body)
            &&& occurs_in(parent.id, after.body)
        }),
{
    let title = event_title(event.text.unwrap(), event.date);
    let created = utc_formatted(event.date, CREATED_STAMP@);
    let links = links_text(event.links);
    let text = event.text.unwrap();
    let head = ":PROPERTIES:\n"@ + property_line(LOCAL_ID_PROPERTY@, local_id) + property_line(
        "CREATED"@,
        created,
    ) + property_line(CAPTUREBOT_ID_PROPERTY@, event.id);
    let line = parent_line(event.reply_to);
    let middle = property_line("ROAM_REFS"@, links) + ":END:\n#+title: "@ + title + "\n"@ + text
        + "\n"@;

    let before = materialized(event, local_id, index, save_dir);
    assert(before.body =~= head + line + (middle + "\n"@));
    lemma_occurs_between(head, line, middle + "\n"@);

    let later = registered(index, parent);
    let back = back_link_line(Some(parent));
    let after = materialized(event, local_id, later, save_dir);
    assert(after.body =~= head + line + (middle + back + "\n"@));
    lemma_occurs_between(head, line, middle + back + "\n"@);
    assert(after.body =~= (head + line + middle) + back + "\n"@);
    lemma_occurs_between(head + line + middle, back, "\n"@);
    assert(back =~= "* Related: [[id:"@ + parent.id + ("]["@ + parent.title + "]]\n"@));
    lemma_occurs_between("* Related: [[id:"@, parent.id, "]["@ + parent.title + "]]\n"@);
    lemma_occurs_widen(parent.id, back, head + line + middle, "\n"@);
}

/// What is written holds what a rescan looks for.
///
/// The document of a note that was made of a message holds the property
/// line of the note's identifier, the property line of its source identity
/// and the keyword line of its title, each in full.
pub proof fn law_body_holds_identifier_identity_and_title(
    event: EventView,
    local_id: Seq<char>,
    index: IndexView,
    save_dir: Seq<char>,
)
    ensures
        ({
            let note = materialized(event, local_id, index, save_dir);
            &&& note.id == local_id
            &&& note.capturebot_id == event.id
            &&& occurs_in(property_line(LOCAL_ID_PROPERTY@, note.id), note.body)
            &&& occurs_in(property_line(CAPTUREBOT_ID_PROPERTY@, note.capturebot_id), note.body)
            &&& occurs_in("#+title: "@ + note.title + "\n"@, note.body)
        }),
{
    let note = materialized(event, local_id, index, save_dir);
    let created = property_line("CREATED"@, utc_formatted(event.date, CREATED_STAMP@));
    let own = property_line(LOCAL_ID_PROPERTY@, local_id);
    let identity = property_line(CAPTUREBOT_ID_PROPERTY@, event.id);
    let refs = parent_line(event.reply_to) + property_line("ROAM_REFS"@, links_text(event.links));
    let title_line = "#+title: "@ + note.title + "\n"@;
    let tail = event.text.unwrap() + "\n"@ + back_link_line(
        known_parent(index, event.reply_to),
    ) + "\n"@;
    let after_title = ":END:\n"@ + title_line + tail;
    assert(":END:\n#+title: "@ =~= ":END:\n"@ + "#+title: "@) by {
        reveal_strlit(":END:\n#+title: ");
        reveal_strlit(":END:\n");
        reveal_strlit("#+title: ");
    }
    assert(note.body =~= ":PROPERTIES:\n"@ + own + (created + identity + refs + after_title));
    lemma_occurs_between(":PROPERTIES:\n"@, own, created + identity + refs + after_title);
    assert(note.body =~= (":PROPERTIES:\n"@ + own + created) + identity + (refs + after_title));
    lemma_occurs_between(":PROPERTIES:\n"@ + own + created, identity, refs + after_title);
    let before_title = ":PROPERTIES:\n"@ + own + created + identity + refs + ":END:\n"@;
    assert(note.body =~= before_title + title_line + tail);
    lemma_occurs_between(before_title, title_line, tail);
}

/// A blank text gets a title with a time stamp, never an empty one.
///
/// Where the text of a message is blank (a single empty line is), the
/// title is the fallback followed by the time of the message.
pub proof fn law_blank_text_gets_stamped_title(text: Seq<char>, date: int)
    requires
        is_blank(text),
    ensures
        is_blank(seq!['\n']),
        event_title(text, date) == TITLE_FALLBACK@ + utc_formatted(date, TITLE_STAMP@),
        event_title(text, date).len() > 0,
        occurs_in(utc_formatted(date, TITLE_STAMP@), event_title(text, date)),
{
    reveal_strlit("capturebot note made at ");
    let stamp = utc_formatted(date, TITLE_STAMP@);
    lemma_occurs_between(TITLE_FALLBACK@, stamp, Seq::<char>::empty());
}

} // verus!
