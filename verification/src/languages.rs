//! The language of each document that was opened.

use vstd::prelude::*;
use vstd::hash_map::StringHashMap;
use crate::event::DocumentEvent;
use crate::event::EventView;
use crate::text::text_of;

verus! {

/// Remembers, for every document that was opened, the language it was opened
/// with. Nothing is ever forgotten.
pub struct LanguageResolverCache {
    entries: StringHashMap<String>,
}

/// The language reported for `event`: its own where it carries one, otherwise
/// the one remembered for its document, otherwise none.
pub open spec fn resolved_language(
    event: EventView,
    known: Map<Seq<char>, Seq<char>>,
) -> Option<Seq<char>> {
    match event.language {
        Some(language) => Some(language),
        None => if known.contains_key(event.uri) {
            Some(known[event.uri])
        } else {
            None
        },
    }
}

impl View for LanguageResolverCache {
    type V = Map<Seq<char>, Seq<char>>;

    closed spec fn view(&self) -> Map<Seq<char>, Seq<char>> {
        self.entries@.map_values(|language: String| language@)
    }
}

impl LanguageResolverCache {
    /// A cache that knows no document.
    pub fn new() -> (cache: LanguageResolverCache)
        ensures
            cache@ =~= Map::empty(),
    {
        LanguageResolverCache { entries: StringHashMap::new() }
    }

    /// Remembers `language` for `uri`, in place of what was known of it.
    pub fn remember(&mut self, uri: String, language: String)
        ensures
            final(self)@ == old(self)@.insert(uri@, language@),
    {
        self.entries.insert(uri, language);
    }

    /// The language remembered for `uri`.
    pub fn lookup(&self, uri: &str) -> (language: Option<String>)
        ensures
            language is Some <==> self@.contains_key(uri@),
            language matches Some(found) ==> found@ == self@[uri@],
    {
        match self.entries.get(uri) {
            Some(found) => Some(found.clone()),
            None => None,
        }
    }

    /// The language to report for `event`.
    pub fn resolve(&self, event: &DocumentEvent) -> (language: Option<String>)
        ensures
            text_of(language) == resolved_language(event@, self@),
    {
        match &event.language {
            Some(own) => Some(own.clone()),
            None => self.lookup(event.uri.as_str()),
        }
    }
}

/// An event's own language wins over what is remembered for its document.
pub proof fn lemma_own_language_wins(event: EventView, known: Map<Seq<char>, Seq<char>>)
    requires
        event.language is Some,
    ensures
        resolved_language(event, known) == event.language,
{
}

/// An event without a language takes the one that its document was last
/// opened with.
pub proof fn lemma_remembered_language_is_used(
    event: EventView,
    known: Map<Seq<char>, Seq<char>>,
    language: Seq<char>,
)
    requires
        event.language is None,
    ensures
        resolved_language(event, known.insert(event.uri, language)) == Some(language),
{
}

/// An event without a language, for a document that was never opened, has
/// none.
pub proof fn lemma_unknown_document_has_no_language(
    event: EventView,
    known: Map<Seq<char>, Seq<char>>,
)
    requires
        event.language is None,
        !known.contains_key(event.uri),
    ensures
        resolved_language(event, known) is None,
{
}

} // verus!
