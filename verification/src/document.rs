//! The property extractor: from a parsed outline document to the notes it
//! holds.
//!
//! A document is handed over as plain values: its property records, its
//! keywords, its text, and its sub-sections with theirs. Parsing the text
//! into that shape is the caller's business.

use crate::config::CapturebotConfig;
use crate::index::NoteIndex;
use crate::note::{
    outcome_view, CapturebotNote, ContextualFrom, NoteView, CAPTUREBOT_ID_PROPERTY,
    CAPTUREBOT_PARENT_ID_PROPERTY, LOCAL_ID_PROPERTY,
};
use crate::text::option_text;
use vstd::prelude::*;
use vstd::string::*;

verus! {

/// The keyword that declares a document's title.
pub const TITLE_KEYWORD: &'static str = "title";

/// The title of a document that declares none.
pub const UNTITLED: &'static str = "untitled capturebot note";

/// One record of a property drawer.
#[derive(Clone, Debug, PartialEq, Eq)]
pub struct NodeProperty {
    pub name: String,
    pub value: Option<String>,
}

/// One keyword line of a document.
#[derive(Clone, Debug, PartialEq, Eq)]
pub struct Keyword {
    pub key: String,
    pub value: String,
}

/// A sub-section of a document, at whatever depth: a heading with what
/// stands under it.
#[derive(Clone, Debug, PartialEq, Eq)]
pub struct ParsedHeading {
    /// The text of the whole sub-section.
    pub source: String,
    /// The text of the heading line.
    pub title: String,
    /// The records of the heading's property drawer, in order.
    pub properties: Vec<NodeProperty>,
}

/// A parsed document.
#[derive(Clone, Debug, PartialEq, Eq)]
pub struct ParsedDocument {
    /// The text of the whole document.
    pub source: String,
    /// Where the document was read from.
    pub path: Option<String>,
    /// The keywords before the first heading, in order.
    pub keywords: Vec<Keyword>,
    /// The records of the document's own property drawer, in order.
    pub properties: Vec<NodeProperty>,
    /// The document's sub-sections of every depth, in the order in which
    /// their headings stand in the text.
    pub children: Vec<ParsedHeading>,
}

/// A property record, as mathematics.
pub struct PropertyView {
    pub name: Seq<char>,
    pub value: Option<Seq<char>>,
}

/// A keyword, as mathematics.
pub struct KeywordView {
    pub key: Seq<char>,
    pub value: Seq<char>,
}

/// A sub-section, as mathematics.
pub struct HeadingView {
    pub source: Seq<char>,
    pub title: Seq<char>,
    pub properties: Seq<PropertyView>,
}

/// A document, as mathematics.
pub struct DocumentView {
    pub source: Seq<char>,
    pub path: Option<Seq<char>>,
    pub keywords: Seq<KeywordView>,
    pub properties: Seq<PropertyView>,
    pub children: Seq<HeadingView>,
}

impl View for NodeProperty {
    type V = PropertyView;

    open spec fn view(&self) -> PropertyView {
        PropertyView { name: self.name@, value: option_text(self.value) }
    }
}

impl View for Keyword {
    type V = KeywordView;

    open spec fn view(&self) -> KeywordView {
        KeywordView { key: self.key@, value: self.value@ }
    }
}

/// Property records, as mathematics.
pub open spec fn properties_view(properties: Seq<NodeProperty>) -> Seq<PropertyView> {
    properties.map_values(|p: NodeProperty| p@)
}

/// Keywords, as mathematics.
pub open spec fn keywords_view(keywords: Seq<Keyword>) -> Seq<KeywordView> {
    keywords.map_values(|k: Keyword| k@)
}

impl View for ParsedHeading {
    type V = HeadingView;

    open spec fn view(&self) -> HeadingView {
        HeadingView {
            source: self.source@,
            title: self.title@,
            properties: properties_view(self.properties@),
        }
    }
}

impl View for ParsedDocument {
    type V = DocumentView;

    open spec fn view(&self) -> DocumentView {
        DocumentView {
            source: self.source@,
            path: option_text(self.path),
            keywords: keywords_view(self.keywords@),
            properties: properties_view(self.properties@),
            children: self.children@.map_values(|h: ParsedHeading| h@),
        }
    }
}

/// Why a section of a document yields no note.
#[derive(Clone, Copy, Debug, PartialEq, Eq, Structural)]
pub enum ExtractError {
    /// No property gives the identity of a captured message.
    MissingCapturebotId,
    /// No property gives the note an identifier of its own.
    MissingId,
}

impl ExtractError {
    /// The error in words.
    pub fn message(&self) -> (words: String)
        ensures
            words@ == match *self {
                ExtractError::MissingCapturebotId => "this note has no capturebot id, dropping"@,
                ExtractError::MissingId => "this note has no id, dropping"@,
            },
    {
        match self {
            ExtractError::MissingCapturebotId => String::from_str(
                "this note has no capturebot id, dropping",
            ),
            ExtractError::MissingId => String::from_str("this note has no id, dropping"),
        }
    }
}

/// The value of the property `name` in a property table: that of the last
/// record of that name that has a value.
pub open spec fn property_value(properties: Seq<PropertyView>, name: Seq<char>) -> Option<
    Seq<char>,
>
    decreases properties.len(),
{
    if properties.len() == 0 {
        None
    } else if properties.last().name == name && properties.last().value is Some {
        properties.last().value
    } else {
        property_value(properties.drop_last(), name)
    }
}

/// The value of a property that must be there: the property's value where
/// that is not empty.
pub open spec fn required_value(properties: Seq<PropertyView>, name: Seq<char>) -> Option<
    Seq<char>,
> {
    match property_value(properties, name) {
        Some(value) => if value.len() > 0 {
            Some(value)
        } else {
            None
        },
        None => None,
    }
}

/// The title that the keywords declare: the value of the first `title`
/// keyword.
pub open spec fn declared_title(keywords: Seq<KeywordView>) -> Option<Seq<char>>
    decreases keywords.len(),
{
    if keywords.len() == 0 {
        None
    } else if keywords.first().key == TITLE_KEYWORD@ {
        Some(keywords.first().value)
    } else {
        declared_title(keywords.drop_first())
    }
}

/// The title of a section: the declared one, else the section's own
/// heading, else the title of the untitled.
pub open spec fn resolved_title(declared: Option<Seq<char>>, heading: Option<Seq<char>>) -> Seq<
    char,
> {
    match declared {
        Some(title) => title,
        None => match heading {
            Some(title) => title,
            None => UNTITLED@,
        },
    }
}

/// The note that a section yields: one, if and only if its properties give
/// a source identity and an identifier, neither empty.
pub open spec fn extracted(
    properties: Seq<PropertyView>,
    title: Seq<char>,
    path: Seq<char>,
    source: Seq<char>,
) -> Result<NoteView, ExtractError> {
    match required_value(properties, CAPTUREBOT_ID_PROPERTY@) {
        None => Err(ExtractError::MissingCapturebotId),
        Some(capturebot_id) => match required_value(properties, LOCAL_ID_PROPERTY@) {
            None => Err(ExtractError::MissingId),
            Some(id) => Ok(
                NoteView {
                    id,
                    path,
                    capturebot_id,
                    parent: property_value(properties, CAPTUREBOT_PARENT_ID_PROPERTY@),
                    title,
                    body: source,
                },
            ),
        },
    }
}

/// Where the notes of a document lie: where the document was read from,
/// nowhere for a document that was read from no file.
pub open spec fn note_path(doc: DocumentView) -> Seq<char> {
    match doc.path {
        Some(path) => path,
        None => Seq::empty(),
    }
}

/// The note of a document's root.
pub open spec fn document_note(doc: DocumentView) -> Result<NoteView, ExtractError> {
    extracted(
        doc.properties,
        resolved_title(declared_title(doc.keywords), None),
        note_path(doc),
        doc.source,
    )
}

/// The note of a sub-section of `doc`. It lies where the document lies.
pub open spec fn heading_note(heading: HeadingView, doc: DocumentView) -> Result<
    NoteView,
    ExtractError,
> {
    extracted(
        heading.properties,
        resolved_title(None, Some(heading.title)),
        note_path(doc),
        heading.source,
    )
}

/// The notes of a document lie where the document lies.
///
/// The note of the root and the note of any sub-section carry the path of
/// the document; the note of a sub-section has the heading for its title
/// and the text of the sub-section for its body.
pub proof fn law_notes_lie_with_their_document(doc: DocumentView, heading: HeadingView)
    ensures
        document_note(doc) matches Ok(note) ==> note.path == note_path(doc),
        heading_note(heading, doc) matches Ok(note) ==> note.path == note_path(doc) && note.title
            == heading.title && note.body == heading.source,
{
}

/// Looks a property up in a table.
pub fn find_property(properties: &Vec<NodeProperty>, name: &str) -> (found: Option<String>)
    ensures
        option_text(found) == property_value(properties_view(properties@), name@),
{
    let ghost table = properties_view(properties@);
    let wanted = String::from_str(name);
    let mut i: usize = properties.len();
    assert(table.take(i as int) == table);
    while i > 0
        invariant
            i <= properties.len(),
            table == properties_view(properties@),
            wanted@ == name@,
            property_value(table, name@) == property_value(table.take(i as int), name@),
        decreases i,
    {
        i -= 1;
        let record = &properties[i];
        assert(table.take(i + 1).drop_last() == table.take(i as int));
        if record.name == wanted {
            match &record.value {
                Some(value) => {
                    return Some(value.clone());
                },
                None => {},
            }
        }
    }
    None
}

/// Looks up a property that must be there and must not be empty.
pub fn find_required(properties: &Vec<NodeProperty>, name: &str) -> (found: Option<String>)
    ensures
        option_text(found) == required_value(properties_view(properties@), name@),
{
    match find_property(properties, name) {
        Some(value) => if !value.as_str().is_empty() {
            Some(value)
        } else {
            None
        },
        None => None,
    }
}

/// Looks for the title that the keywords declare.
pub fn find_declared_title(keywords: &Vec<Keyword>) -> (found: Option<String>)
    ensures
        option_text(found) == declared_title(keywords_view(keywords@)),
{
    let ghost all = keywords_view(keywords@);
    let wanted = String::from_str(TITLE_KEYWORD);
    let mut i: usize = 0;
    assert(all.skip(0) == all);
    while i < keywords.len()
        invariant
            i <= keywords.len(),
            all == keywords_view(keywords@),
            wanted@ == TITLE_KEYWORD@,
            declared_title(all) == declared_title(all.skip(i as int)),
        decreases keywords.len() - i,
    {
        let keyword = &keywords[i];
        assert(all.skip(i as int).drop_first() == all.skip(i + 1));
        if keyword.key == wanted {
            return Some(keyword.value.clone());
        }
        i += 1;
    }
    None
}

/// Makes the note of a section from its properties, with the title, path
/// and text settled by the caller.
pub fn extract_note(
    properties: &Vec<NodeProperty>,
    title: String,
    path: String,
    source: String,
) -> (made: Result<CapturebotNote, ExtractError>)
    ensures
        outcome_view(made) == extracted(properties_view(properties@), title@, path@, source@),
{
    let capturebot_id = match find_required(properties, CAPTUREBOT_ID_PROPERTY) {
        Some(identity) => identity,
        None => {
            return Err(ExtractError::MissingCapturebotId);
        },
    };
    let id = match find_required(properties, LOCAL_ID_PROPERTY) {
        Some(id) => id,
        None => {
            return Err(ExtractError::MissingId);
        },
    };
    let parent = find_property(properties, CAPTUREBOT_PARENT_ID_PROPERTY);
    Ok(CapturebotNote { id, path, capturebot_id, _capturebot_parent: parent, title, body: source })
}

/// Where the notes of `doc` lie.
pub fn path_of(doc: &ParsedDocument) -> (path: String)
    ensures
        path@ == note_path(doc@),
{
    match &doc.path {
        Some(path) => path.clone(),
        None => String::new(),
    }
}

impl ContextualFrom<&ParsedDocument, &NoteIndex, &CapturebotConfig> for CapturebotNote {
    type Error = ExtractError;

    /// The note of the document's root. Neither the index nor the
    /// configuration bears on it.
    fn contextual_from(
        doc: &ParsedDocument,
        _notes: &NoteIndex,
        _config: &CapturebotConfig,
    ) -> (made: Result<Self, Self::Error>)
        ensures
            outcome_view(made) == document_note(doc@),
    {
        let title = match find_declared_title(&doc.keywords) {
            Some(title) => title,
            None => String::from_str(UNTITLED),
        };
        extract_note(&doc.properties, title, path_of(doc), doc.source.clone())
    }
}

impl ContextualFrom<&ParsedHeading, &ParsedDocument, &CapturebotConfig> for CapturebotNote {
    type Error = ExtractError;

    /// The note of a sub-section, in the light of the document that holds
    /// it: the note lies where that document lies. The configuration does
    /// not bear on it.
    fn contextual_from(
        heading: &ParsedHeading,
        doc: &ParsedDocument,
        _config: &CapturebotConfig,
    ) -> (made: Result<Self, Self::Error>)
        ensures
            outcome_view(made) == heading_note(heading@, doc@),
    {
        extract_note(
            &heading.properties,
            heading.title.clone(),
            path_of(doc),
            heading.source.clone(),
        )
    }
}

} // verus!
