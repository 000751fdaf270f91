//! The record of the last report, and the rule that suppresses a save that
//! repeats it.

use vstd::prelude::*;
use crate::event::DocumentEvent;
use crate::event::EventView;
use crate::time::Timestamp;

verus! {

/// The debounce window in nanoseconds: one second.
pub const INTERVAL_NANOS: i128 = 1_000_000_000;

/// Which document was reported last, and when.
#[derive(Clone, Debug)]
pub struct ActivityState {
    last_uri: String,
    last_timestamp: Timestamp,
}

/// An [`ActivityState`] as plain mathematical values.
pub struct ActivityView {
    pub last_uri: Seq<char>,
    pub last_timestamp: Timestamp,
}

impl ActivityView {
    /// The state at startup: no document reported yet, the clock at `start`.
    pub open spec fn initial(start: Timestamp) -> ActivityView {
        ActivityView { last_uri: Seq::empty(), last_timestamp: start }
    }

    /// Whether `event`, arriving at `now`, is dropped: it is a save of the
    /// document reported last, less than the window after that report.
    pub open spec fn suppresses(self, event: EventView, now: Timestamp) -> bool {
        &&& event.uri == self.last_uri
        &&& now.as_nanos() - self.last_timestamp.as_nanos() < INTERVAL_NANOS
        &&& event.is_write
    }

    /// The state after `uri` was reported at `now`.
    pub open spec fn reported(self, uri: Seq<char>, now: Timestamp) -> ActivityView {
        ActivityView { last_uri: uri, last_timestamp: now }
    }
}

impl View for ActivityState {
    type V = ActivityView;

    closed spec fn view(&self) -> ActivityView {
        ActivityView { last_uri: self.last_uri@, last_timestamp: self.last_timestamp }
    }
}

impl ActivityState {
    /// The state of a process that starts at `start`.
    pub fn new(start: Timestamp) -> (state: ActivityState)
        ensures
            state@ == ActivityView::initial(start),
    {
        ActivityState { last_uri: String::new(), last_timestamp: start }
    }

    /// Decides whether `event`, arriving at `now`, is suppressed.
    pub fn should_suppress(&self, event: &DocumentEvent, now: Timestamp) -> (suppress: bool)
        ensures
            suppress == self@.suppresses(event@, now),
    {
        event.uri == self.last_uri && now.nanos_since(&self.last_timestamp) < INTERVAL_NANOS
            && event.is_write
    }

    /// The document reported last; empty before the first report.
    pub fn last_uri(&self) -> (uri: &String)
        ensures
            uri@ == self@.last_uri,
    {
        &self.last_uri
    }

    /// The instant of the last report; the start before the first.
    pub fn last_timestamp(&self) -> (at: Timestamp)
        ensures
            at == self@.last_timestamp,
    {
        self.last_timestamp
    }

    /// Notes that `uri` was reported at `now`.
    pub fn record(&mut self, uri: String, now: Timestamp)
        ensures
            final(self)@ == old(self)@.reported(uri@, now),
    {
        self.last_uri = uri;
        self.last_timestamp = now;
    }
}

/// A save of the document reported last is dropped exactly while the window
/// is open: from the report until one window's length has passed.
pub proof fn lemma_repeated_save_window(
    state: ActivityView,
    uri: Seq<char>,
    reported_at: Timestamp,
    now: Timestamp,
)
    ensures
        state.reported(uri, reported_at).suppresses(EventView::save(uri), now) <==> now.as_nanos()
            - reported_at.as_nanos() < INTERVAL_NANOS,
{
}

/// An event that is no save is never dropped, however soon it follows.
pub proof fn lemma_only_saves_are_suppressed(state: ActivityView, event: EventView, now: Timestamp)
    requires
        !event.is_write,
    ensures
        !state.suppresses(event, now),
{
}

/// An event for another document than the one reported last is never
/// dropped.
pub proof fn lemma_other_document_passes(state: ActivityView, event: EventView, now: Timestamp)
    requires
        event.uri != state.last_uri,
    ensures
        !state.suppresses(event, now),
{
}

/// The first event of a process is never dropped, whatever its kind and
/// whenever it arrives, as long as it names a document: the startup state
/// has reported the document without a name.
pub proof fn lemma_first_event_passes(start: Timestamp, event: EventView, now: Timestamp)
    requires
        event.uri.len() > 0,
    ensures
        !ActivityView::initial(start).suppresses(event, now),
{
}

/// The instant of the last report never moves back, as long as the clock
/// that stamps the reports does not.
pub proof fn lemma_last_report_never_moves_back(state: ActivityView, uri: Seq<char>, now: Timestamp)
    requires
        state.last_timestamp.as_nanos() <= now.as_nanos(),
    ensures
        state.last_timestamp.as_nanos() <= state.reported(uri, now).last_timestamp.as_nanos(),
{
}

} // verus!
