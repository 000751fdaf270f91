//! The pipeline from a document event to a heartbeat.
//!
//! A [`Watcher`] owns what the decision depends on. For each event it either
//! answers that nothing is to be sent, or hands out the call to make. The
//! caller makes that call and reports how it went; the watcher then moves its
//! record on, whether the call succeeded or not.

use vstd::prelude::*;
use crate::activity::ActivityState;
use crate::activity::ActivityView;
use crate::activity::INTERVAL_NANOS;
use crate::event::DocumentEvent;
use crate::event::EventView;
use crate::languages::resolved_language;
use crate::languages::LanguageResolverCache;
use crate::payload::lemma_data_shape;
use crate::payload::HeartbeatPayload;
use crate::payload::PayloadView;
use crate::project::ProjectContext;
use crate::time::wall_clock;
use crate::text::text_of;
use crate::time::Timestamp;

verus! {

/// The window, in seconds, within which the server merges two heartbeats
/// into one stored event.
pub const PULSETIME_SECS: u64 = 60;

/// One call of the server's heartbeat operation, ready to be made.
#[derive(Clone, Debug)]
pub struct HeartbeatCall {
    /// The bucket that receives the heartbeat.
    pub bucket_id: String,
    /// The record to send.
    pub payload: HeartbeatPayload,
    /// The merge window to ask for, in seconds.
    pub pulsetime_secs: u64,
}

/// A [`HeartbeatCall`] as plain mathematical values.
pub struct CallView {
    pub bucket_id: Seq<char>,
    pub payload: PayloadView,
    pub pulsetime_secs: int,
}

impl View for HeartbeatCall {
    type V = CallView;

    open spec fn view(&self) -> CallView {
        CallView {
            bucket_id: self.bucket_id@,
            payload: self.payload@,
            pulsetime_secs: self.pulsetime_secs as int,
        }
    }
}

/// The call, if any, as plain mathematical values.
pub open spec fn call_of(call: Option<HeartbeatCall>) -> Option<CallView> {
    match call {
        Some(call) => Some(call@),
        None => None,
    }
}

/// The line to log for a heartbeat that `bucket_id` did not receive.
pub open spec fn failure_line(bucket_id: Seq<char>, detail: Seq<char>) -> Seq<char> {
    "Received error trying to send a heartbeat to the server (bucket "@ + bucket_id + "): "@
        + detail
}

/// What is to be logged for a call that ended in `outcome`: nothing for a
/// success, one line for a failure.
pub open spec fn line_of(call: CallView, outcome: Result<(), String>) -> Option<Seq<char>> {
    match outcome {
        Ok(_) => None,
        Err(detail) => Some(failure_line(call.bucket_id, detail@)),
    }
}

/// The state of one session of the editor.
pub struct Watcher {
    activity: ActivityState,
    languages: LanguageResolverCache,
    project: ProjectContext,
    bucket_id: String,
    heartbeat_on_open: bool,
}

/// A [`Watcher`] as plain mathematical values.
pub struct WatcherView {
    pub activity: ActivityView,
    pub languages: Map<Seq<char>, Seq<char>>,
    pub project: Option<Seq<char>>,
    pub bucket_id: Seq<char>,
    pub heartbeat_on_open: bool,
}

impl WatcherView {
    /// The session as it starts at `start`.
    pub open spec fn initial(
        bucket_id: Seq<char>,
        project: Option<Seq<char>>,
        heartbeat_on_open: bool,
        start: Timestamp,
    ) -> WatcherView {
        WatcherView {
            activity: ActivityView::initial(start),
            languages: Map::empty(),
            project,
            bucket_id,
            heartbeat_on_open,
        }
    }

    /// The answer to `event` arriving at `now`: no call where the event is
    /// suppressed, otherwise the call that reports it.
    pub open spec fn decision(self, event: EventView, now: Timestamp) -> Option<CallView> {
        if self.activity.suppresses(event, now) {
            None
        } else {
            Some(
                CallView {
                    bucket_id: self.bucket_id,
                    payload: PayloadView::of(event, self.languages, self.project, now),
                    pulsetime_secs: PULSETIME_SECS as int,
                },
            )
        }
    }

    /// The session after `call` was attempted. Whether it succeeded plays no
    /// part: a failed call moves the record on as a successful one does.
    pub open spec fn settled(self, call: CallView, succeeded: bool) -> WatcherView {
        WatcherView {
            activity: self.activity.reported(call.payload.file, call.payload.timestamp),
            ..self
        }
    }

    /// The session after it learned that `uri` was opened in `language`.
    pub open spec fn opened(self, uri: Seq<char>, language: Seq<char>) -> WatcherView {
        WatcherView { languages: self.languages.insert(uri, language), ..self }
    }

    /// The answer to an open of `uri` in `language` at `now`, given after the
    /// language was noted: a decision where opens are reported, no call where
    /// they are not.
    pub open spec fn open_decision(
        self,
        uri: Seq<char>,
        language: Seq<char>,
        now: Timestamp,
    ) -> Option<CallView> {
        if self.heartbeat_on_open {
            self.opened(uri, language).decision(EventView::open(uri, language), now)
        } else {
            None
        }
    }
}

impl View for Watcher {
    type V = WatcherView;

    closed spec fn view(&self) -> WatcherView {
        WatcherView {
            activity: self.activity@,
            languages: self.languages@,
            project: self.project@,
            bucket_id: self.bucket_id@,
            heartbeat_on_open: self.heartbeat_on_open,
        }
    }
}

impl Watcher {
    /// A session that starts at `start`, reports to `bucket_id`, works on
    /// `project`, and reports opens only if `heartbeat_on_open`.
    pub fn new(
        bucket_id: String,
        project: ProjectContext,
        heartbeat_on_open: bool,
        start: Timestamp,
    ) -> (watcher: Watcher)
        ensures
            watcher@ == WatcherView::initial(bucket_id@, project@, heartbeat_on_open, start),
    {
        let watcher = Watcher {
            activity: ActivityState::new(start),
            languages: LanguageResolverCache::new(),
            project,
            bucket_id,
            heartbeat_on_open,
        };
        watcher
    }

    /// The record of the last report.
    pub fn activity(&self) -> (activity: &ActivityState)
        ensures
            activity@ == self@.activity,
    {
        &self.activity
    }

    /// The language remembered for `uri`.
    pub fn language_of(&self, uri: &str) -> (language: Option<String>)
        ensures
            language is Some <==> self@.languages.contains_key(uri@),
            language matches Some(found) ==> found@ == self@.languages[uri@],
    {
        self.languages.lookup(uri)
    }

    /// The project that the session works on.
    pub fn project(&self) -> (project: &ProjectContext)
        ensures
            project@ == self@.project,
    {
        &self.project
    }

    /// The bucket that the session reports to.
    pub fn bucket_id(&self) -> (bucket_id: &String)
        ensures
            bucket_id@ == self@.bucket_id,
    {
        &self.bucket_id
    }

    /// Whether the session reports opens.
    pub fn reports_opens(&self) -> (reports: bool)
        ensures
            reports == self@.heartbeat_on_open,
    {
        self.heartbeat_on_open
    }

    /// Answers `event`, which arrived at `now`: the call to make, or nothing
    /// where the event is suppressed. The session itself is not touched: it
    /// moves on in [`Watcher::settle`], once the call was attempted.
    pub fn decide_at(&self, event: &DocumentEvent, now: Timestamp) -> (call: Option<HeartbeatCall>)
        ensures
            call_of(call) == self@.decision(event@, now),
    {
        if self.activity.should_suppress(event, now) {
            return None;
        }
        let payload = HeartbeatPayload::enrich(event, &self.languages, &self.project, now);
        Some(
            HeartbeatCall {
                bucket_id: self.bucket_id.clone(),
                payload,
                pulsetime_secs: PULSETIME_SECS,
            },
        )
    }

    /// Answers `event` as of the moment of the call, read from the wall clock.
    /// Which instant that is cannot be told beforehand; the answer is the one
    /// that [`Watcher::decide_at`] gives for it. The clock is read through
    /// `chrono`, which panics where the system clock is set before 1970.
    pub fn decide(&self, event: &DocumentEvent) -> (call: Option<HeartbeatCall>)
        ensures
            exists|now: Timestamp| call_of(call) == #[trigger] self@.decision(event@, now),
    {
        let now = wall_clock();
        self.decide_at(event, now)
    }

    /// Takes note that `call` was attempted and ended in `outcome`. The
    /// session's record moves on to the call's document and instant in either
    /// case; a failure also yields the line to log, and is not tried again.
    pub fn settle(
        &mut self,
        call: &HeartbeatCall,
        outcome: &Result<(), String>,
    ) -> (line: Option<String>)
        ensures
            final(self)@ == old(self)@.settled(call@, *outcome is Ok),
            text_of(line) == line_of(call@, *outcome),
    {
        self.activity.record(call.payload.file.clone(), call.payload.timestamp);
        match outcome {
            Ok(_) => None,
            Err(detail) => {
                let mut line: String =
                    "Received error trying to send a heartbeat to the server (bucket ".to_string();
                line.append(call.bucket_id.as_str());
                line.append("): ");
                line.append(detail.as_str());
                Some(line)
            },
        }
    }

    /// Notes the language of a document that was opened at `now`, and answers
    /// the open itself: with a decision where the session reports opens, with
    /// nothing where it does not. The language is noted in either case.
    pub fn on_open(
        &mut self,
        uri: String,
        language: String,
        now: Timestamp,
    ) -> (call: Option<HeartbeatCall>)
        ensures
            final(self)@ == old(self)@.opened(uri@, language@),
            call_of(call) == old(self)@.open_decision(uri@, language@, now),
    {
        self.languages.remember(uri.clone(), language.clone());
        if self.heartbeat_on_open {
            let event = DocumentEvent::open(uri, language);
            self.decide_at(&event, now)
        } else {
            None
        }
    }

    /// Answers a change of `uri` at `now`.
    pub fn on_change(&self, uri: String, now: Timestamp) -> (call: Option<HeartbeatCall>)
        ensures
            call_of(call) == self@.decision(EventView::change(uri@), now),
    {
        let event = DocumentEvent::change(uri);
        self.decide_at(&event, now)
    }

    /// Answers a save of `uri` at `now`.
    pub fn on_save(&self, uri: String, now: Timestamp) -> (call: Option<HeartbeatCall>)
        ensures
            call_of(call) == self@.decision(EventView::save(uri@), now),
    {
        let event = DocumentEvent::save(uri);
        self.decide_at(&event, now)
    }
}

/// A call is handed out exactly for the events that the record of the last
/// report does not suppress: no payload exists for a suppressed event.
pub proof fn lemma_call_only_when_not_suppressed(
    session: WatcherView,
    event: EventView,
    now: Timestamp,
)
    ensures
        session.decision(event, now) is Some <==> !session.activity.suppresses(event, now),
{
}

/// Every call that a session hands out is for an instant, names the event's
/// document, and carries the session's project and the resolved language
/// exactly where there is one; its data has the matching keys and no others.
pub proof fn lemma_call_shape(session: WatcherView, event: EventView, now: Timestamp)
    requires
        session.decision(event, now) is Some,
    ensures
        ({
            let call = session.decision(event, now)->0;
            let data = call.payload.data();
            &&& call.bucket_id == session.bucket_id
            &&& call.pulsetime_secs == PULSETIME_SECS
            &&& call.payload.timestamp == now
            &&& call.payload.duration_nanos == 0
            &&& call.payload.file == event.uri
            &&& call.payload.project == session.project
            &&& call.payload.language == resolved_language(event, session.languages)
            &&& data.contains_key("file"@) && data["file"@] == event.uri
            &&& data.contains_key("project"@) <==> session.project is Some
            &&& data.contains_key("language"@) <==> resolved_language(event, session.languages)
                is Some
        }),
{
    lemma_data_shape(session.decision(event, now)->0.payload);
}

/// The file named by a call is never empty when the event names a document.
pub proof fn lemma_call_names_the_document(session: WatcherView, event: EventView, now: Timestamp)
    requires
        event.uri.len() > 0,
        session.decision(event, now) is Some,
    ensures
        session.decision(event, now)->0.payload.file.len() > 0,
        session.decision(event, now)->0.payload.data()["file"@].len() > 0,
{
    lemma_data_shape(session.decision(event, now)->0.payload);
}

/// After a document was reported, a save of it is dropped while the window
/// is open and answered with a call from then on.
pub proof fn lemma_debounce(session: WatcherView, call: CallView, succeeded: bool, now: Timestamp)
    ensures
        session.settled(call, succeeded).decision(EventView::save(call.payload.file), now)
            is None <==> now.as_nanos() - call.payload.timestamp.as_nanos() < INTERVAL_NANOS,
{
}

/// An event that is no save is answered with a call in every state, however
/// soon it follows the last report.
pub proof fn lemma_non_write_is_always_reported(
    session: WatcherView,
    event: EventView,
    now: Timestamp,
)
    requires
        !event.is_write,
    ensures
        session.decision(event, now) is Some,
{
}

/// An event for another document than the one reported last is answered
/// with a call, however soon it follows.
pub proof fn lemma_other_document_is_reported(
    session: WatcherView,
    event: EventView,
    now: Timestamp,
)
    requires
        event.uri != session.activity.last_uri,
    ensures
        session.decision(event, now) is Some,
{
}

/// The first event of a session is answered with a call, whatever its kind,
/// as long as it names a document.
pub proof fn lemma_cold_start(
    bucket_id: Seq<char>,
    project: Option<Seq<char>>,
    heartbeat_on_open: bool,
    start: Timestamp,
    event: EventView,
    now: Timestamp,
)
    requires
        event.uri.len() > 0,
    ensures
        WatcherView::initial(bucket_id, project, heartbeat_on_open, start).decision(event, now)
            is Some,
{
}

/// A first event that is an open is answered with a call where the session
/// reports opens.
pub proof fn lemma_cold_start_open(
    bucket_id: Seq<char>,
    project: Option<Seq<char>>,
    start: Timestamp,
    uri: Seq<char>,
    language: Seq<char>,
    now: Timestamp,
)
    ensures
        WatcherView::initial(bucket_id, project, true, start).open_decision(uri, language, now)
            is Some,
{
}

/// Once a document was opened in a language, a later event for it that
/// carries none is reported with that language, whatever was reported in
/// between.
pub proof fn lemma_language_of_opened_document(
    session: WatcherView,
    uri: Seq<char>,
    language: Seq<char>,
    event: EventView,
    now: Timestamp,
)
    requires
        event.uri == uri,
        event.language is None,
        session.opened(uri, language).decision(event, now) is Some,
    ensures
        session.opened(uri, language).decision(event, now)->0.payload.language == Some(language),
        session.opened(uri, language).decision(event, now)->0.payload.data()["language"@]
            == language,
{
    lemma_data_shape(session.opened(uri, language).decision(event, now)->0.payload);
}

/// An event that carries no language, for a document that was never opened,
/// is reported without one.
pub proof fn lemma_no_language_for_unopened_document(
    session: WatcherView,
    event: EventView,
    now: Timestamp,
)
    requires
        event.language is None,
        !session.languages.contains_key(event.uri),
        session.decision(event, now) is Some,
    ensures
        session.decision(event, now)->0.payload.language is None,
        !session.decision(event, now)->0.payload.data().contains_key("language"@),
{
    lemma_data_shape(session.decision(event, now)->0.payload);
}

/// A failed call leaves the session exactly as a successful one does.
pub proof fn lemma_failure_settles_like_success(session: WatcherView, call: CallView)
    ensures
        session.settled(call, false) == session.settled(call, true),
{
}

/// A save that follows a failed call for the same document inside the window
/// is dropped, as after a successful one.
pub proof fn lemma_failed_call_still_debounces(
    session: WatcherView,
    call: CallView,
    now: Timestamp,
)
    requires
        now.as_nanos() - call.payload.timestamp.as_nanos() < INTERVAL_NANOS,
    ensures
        session.settled(call, false).decision(EventView::save(call.payload.file), now) is None,
{
}

/// Nothing that happens in a session changes its bucket, its project or
/// whether it reports opens, and no language is ever forgotten.
pub proof fn lemma_session_constants(
    session: WatcherView,
    call: CallView,
    succeeded: bool,
    uri: Seq<char>,
    language: Seq<char>,
)
    ensures
        session.settled(call, succeeded).bucket_id == session.bucket_id,
        session.settled(call, succeeded).project == session.project,
        session.settled(call, succeeded).heartbeat_on_open == session.heartbeat_on_open,
        session.settled(call, succeeded).languages == session.languages,
        session.opened(uri, language).bucket_id == session.bucket_id,
        session.opened(uri, language).project == session.project,
        session.opened(uri, language).heartbeat_on_open == session.heartbeat_on_open,
        session.opened(uri, language).activity == session.activity,
        session.languages.dom().subset_of(session.opened(uri, language).languages.dom()),
{
}

} // verus!
