//! What the editor reports about a document.

use vstd::prelude::*;
use crate::text::text_of;

verus! {

/// One notification about a document: it was opened, changed or saved.
#[derive(Clone, Debug)]
pub struct DocumentEvent {
    /// The document's identity.
    pub uri: String,
    /// Whether the document was written to disk (a save).
    pub is_write: bool,
    /// The document's language; only an open carries one.
    pub language: Option<String>,
}

/// A [`DocumentEvent`] as plain mathematical values.
pub struct EventView {
    pub uri: Seq<char>,
    pub is_write: bool,
    pub language: Option<Seq<char>>,
}

impl View for DocumentEvent {
    type V = EventView;

    open spec fn view(&self) -> EventView {
        EventView { uri: self.uri@, is_write: self.is_write, language: text_of(self.language) }
    }
}

impl EventView {
    /// The event of opening `uri` as a document in `language`.
    pub open spec fn open(uri: Seq<char>, language: Seq<char>) -> EventView {
        EventView { uri, is_write: false, language: Some(language) }
    }

    /// The event of changing the content of `uri`.
    pub open spec fn change(uri: Seq<char>) -> EventView {
        EventView { uri, is_write: false, language: None }
    }

    /// The event of saving `uri`.
    pub open spec fn save(uri: Seq<char>) -> EventView {
        EventView { uri, is_write: true, language: None }
    }
}

impl DocumentEvent {
    /// The document `uri` entered the editor, with its language.
    pub fn open(uri: String, language: String) -> (event: DocumentEvent)
        ensures
            event@ == EventView::open(uri@, language@),
    {
        DocumentEvent { uri, is_write: false, language: Some(language) }
    }

    /// The content of `uri` changed.
    pub fn change(uri: String) -> (event: DocumentEvent)
        ensures
            event@ == EventView::change(uri@),
    {
        DocumentEvent { uri, is_write: false, language: None }
    }

    /// `uri` was written to disk.
    pub fn save(uri: String) -> (event: DocumentEvent)
        ensures
            event@ == EventView::save(uri@),
    {
        DocumentEvent { uri, is_write: true, language: None }
    }
}

} // verus!
