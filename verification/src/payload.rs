//! What one heartbeat carries.

use vstd::prelude::*;
use crate::event::DocumentEvent;
use crate::event::EventView;
use crate::json::empty_object;
use crate::json::holds_exactly;
use crate::json::insert_string;
use crate::json::object_keys;
use crate::json::JsonObject;
use crate::languages::resolved_language;
use crate::languages::LanguageResolverCache;
use crate::project::ProjectContext;
use crate::text::text_of;
use crate::time::Timestamp;

verus! {

/// The record sent for one event: an instant, not an interval. The server
/// merges consecutive heartbeats into durations.
#[derive(Clone, Debug)]
pub struct HeartbeatPayload {
    /// When the event arrived.
    pub timestamp: Timestamp,
    /// The length of the record in nanoseconds: always zero.
    pub duration_nanos: i64,
    /// The document.
    pub file: String,
    /// The project, where one is known.
    pub project: Option<String>,
    /// The document's language, where it can be told.
    pub language: Option<String>,
}

/// A [`HeartbeatPayload`] as plain mathematical values.
pub struct PayloadView {
    pub timestamp: Timestamp,
    pub duration_nanos: int,
    pub file: Seq<char>,
    pub project: Option<Seq<char>>,
    pub language: Option<Seq<char>>,
}

impl PayloadView {
    /// The payload for `event`, arriving at `now`, in a session that works on
    /// `project` and knows the languages `known`.
    pub open spec fn of(
        event: EventView,
        known: Map<Seq<char>, Seq<char>>,
        project: Option<Seq<char>>,
        now: Timestamp,
    ) -> PayloadView {
        PayloadView {
            timestamp: now,
            duration_nanos: 0,
            file: event.uri,
            project,
            language: resolved_language(event, known),
        }
    }

    /// The payload's data as the server reads it: `file` always, `project`
    /// and `language` where they are known.
    pub open spec fn data(self) -> Map<Seq<char>, Seq<char>> {
        let file = Map::<Seq<char>, Seq<char>>::empty().insert("file"@, self.file);
        let project = match self.project {
            Some(project) => file.insert("project"@, project),
            None => file,
        };
        match self.language {
            Some(language) => project.insert("language"@, language),
            None => project,
        }
    }
}

impl View for HeartbeatPayload {
    type V = PayloadView;

    open spec fn view(&self) -> PayloadView {
        PayloadView {
            timestamp: self.timestamp,
            duration_nanos: self.duration_nanos as int,
            file: self.file@,
            project: text_of(self.project),
            language: text_of(self.language),
        }
    }
}

impl HeartbeatPayload {
    /// Builds the payload for `event`, which arrived at `now`: the document it
    /// names, the session's project, and the language that `languages`
    /// resolves for it.
    pub fn enrich(
        event: &DocumentEvent,
        languages: &LanguageResolverCache,
        project: &ProjectContext,
        now: Timestamp,
    ) -> (payload: HeartbeatPayload)
        ensures
            payload@ == PayloadView::of(event@, languages@, project@, now),
    {
        let language = languages.resolve(event);
        let project = match project.folder() {
            Some(folder) => Some(folder.clone()),
            None => None,
        };
        HeartbeatPayload {
            timestamp: now,
            duration_nanos: 0,
            file: event.uri.clone(),
            project,
            language,
        }
    }

    /// The payload's data as a JSON object: each entry of the data as a JSON
    /// string, and no other entry.
    pub fn data(&self) -> (object: JsonObject)
        ensures
            holds_exactly(object, self@.data()),
    {
        let mut object = empty_object();
        insert_string(&mut object, "file".to_string(), self.file.clone());
        if let Some(project) = &self.project {
            insert_string(&mut object, "project".to_string(), project.clone());
        }
        if let Some(language) = &self.language {
            insert_string(&mut object, "language".to_string(), language.clone());
        }
        object
    }
}

/// A payload's data always names the file, and names the project and the
/// language exactly where the payload has them.
pub proof fn lemma_data_shape(payload: PayloadView)
    ensures
        payload.data().contains_key("file"@),
        payload.data()["file"@] == payload.file,
        payload.data().contains_key("project"@) <==> payload.project is Some,
        payload.project matches Some(project) ==> payload.data()["project"@] == project,
        payload.data().contains_key("language"@) <==> payload.language is Some,
        payload.language matches Some(language) ==> payload.data()["language"@] == language,
        forall|key: Seq<char>| #[trigger]
            payload.data().contains_key(key) ==> key == "file"@ || key == "project"@ || key
                == "language"@,
{
    reveal_strlit("file");
    reveal_strlit("project");
    reveal_strlit("language");
    assert("file"@.len() == 4 && "project"@.len() == 7 && "language"@.len() == 8);
}

} // verus!
