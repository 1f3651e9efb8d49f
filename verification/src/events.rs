use vstd::prelude::*;
use std::collections::VecDeque;
use crate::clock::unix_now_secs;
use crate::config::MAX_EVENTS;
use crate::random::{generate_request_id, request_id_text};

verus! {

/// A value recorded with an event.
#[derive(Clone, Debug, PartialEq, Eq)]
pub enum DetailValue {
    Text(String),
    Flag(bool),
    Count(u64),
}

/// One named value recorded with an event.
#[derive(Clone, Debug, PartialEq, Eq)]
pub struct DetailEntry {
    pub key: String,
    pub value: DetailValue,
}

/// Something that happened in the connector, kept for the event log.
#[derive(Clone, Debug)]
pub struct ConnectorEvent {
    pub id: String,
    pub event_type: String,
    pub severity: &'static str,
    pub message: String,
    pub request_id: String,
    pub created_at: u64,
    pub details: Vec<DetailEntry>,
}

/// What a recorded detail says, as a mathematical value.
pub enum DetailFact {
    Text(Seq<char>),
    Flag(bool),
    Count(u64),
}

impl View for DetailEntry {
    type V = (Seq<char>, DetailFact);

    open spec fn view(&self) -> (Seq<char>, DetailFact) {
        (
            self.key@,
            match self.value {
                DetailValue::Text(s) => DetailFact::Text(s@),
                DetailValue::Flag(b) => DetailFact::Flag(b),
                DetailValue::Count(n) => DetailFact::Count(n),
            },
        )
    }
}

/// What a list of details says.
pub open spec fn details_view(ds: Seq<DetailEntry>) -> Seq<(Seq<char>, DetailFact)> {
    ds.map_values(|d: DetailEntry| d@)
}

/// The log after `event` is appended: the oldest event leaves once the log
/// holds more than `MAX_EVENTS`.
pub open spec fn appended(log: Seq<ConnectorEvent>, event: ConnectorEvent) -> Seq<ConnectorEvent> {
    let grown = log.push(event);
    if grown.len() > MAX_EVENTS {
        grown.drop_first()
    } else {
        grown
    }
}

/// Whether `s` is of the form of a generated request id.
pub open spec fn generated_id_text(s: Seq<char>) -> bool {
    exists|secs: u64, n: u32| n <= 0xFFFFFF && s == #[trigger] request_id_text(secs, n)
}

/// Whether `e` records the given type, severity, message and details, under a generated id.
pub open spec fn event_says(
    e: ConnectorEvent,
    event_type: Seq<char>,
    severity: Seq<char>,
    message: Seq<char>,
    details: Seq<(Seq<char>, DetailFact)>,
) -> bool {
    &&& e.event_type@ == event_type
    &&& e.severity@ == severity
    &&& e.message@ == message
    &&& details_view(e.details@) == details
    &&& generated_id_text(e.id@)
}

/// `after` is `before` with one event appended that says the given things and
/// belongs to request `request_id`.
pub open spec fn logged_for_request(
    before: Seq<ConnectorEvent>,
    after: Seq<ConnectorEvent>,
    event_type: Seq<char>,
    severity: Seq<char>,
    message: Seq<char>,
    request_id: Seq<char>,
    details: Seq<(Seq<char>, DetailFact)>,
) -> bool {
    exists|e: ConnectorEvent|
        {
            &&& #[trigger] appended(before, e) == after
            &&& event_says(e, event_type, severity, message, details)
            &&& e.request_id@ == request_id
        }
}

/// `after` is `before` with one event appended that says the given things,
/// belongs to request `request_id` and was created at Unix time `created_at`.
pub open spec fn logged_at(
    before: Seq<ConnectorEvent>,
    after: Seq<ConnectorEvent>,
    event_type: Seq<char>,
    severity: Seq<char>,
    message: Seq<char>,
    request_id: Seq<char>,
    details: Seq<(Seq<char>, DetailFact)>,
    created_at: u64,
) -> bool {
    exists|e: ConnectorEvent|
        {
            &&& #[trigger] appended(before, e) == after
            &&& event_says(e, event_type, severity, message, details)
            &&& e.request_id@ == request_id
            &&& e.created_at == created_at
        }
}

/// `after` is `before` with one event appended that says the given things,
/// under a freshly generated request id.
pub open spec fn logged_fresh(
    before: Seq<ConnectorEvent>,
    after: Seq<ConnectorEvent>,
    event_type: Seq<char>,
    severity: Seq<char>,
    message: Seq<char>,
    details: Seq<(Seq<char>, DetailFact)>,
) -> bool {
    exists|e: ConnectorEvent|
        {
            &&& #[trigger] appended(before, e) == after
            &&& event_says(e, event_type, severity, message, details)
            &&& generated_id_text(e.request_id@)
        }
}

/// A detail holding text.
pub fn text_detail(key: &str, value: &str) -> (d: DetailEntry)
    ensures
        d@ == (key@, DetailFact::Text(value@)),
{
    DetailEntry { key: String::from_str(key), value: DetailValue::Text(String::from_str(value)) }
}

/// A detail holding a flag.
pub fn flag_detail(key: &str, value: bool) -> (d: DetailEntry)
    ensures
        d@ == (key@, DetailFact::Flag(value)),
{
    DetailEntry { key: String::from_str(key), value: DetailValue::Flag(value) }
}

/// A detail holding a count.
pub fn count_detail(key: &str, value: u64) -> (d: DetailEntry)
    ensures
        d@ == (key@, DetailFact::Count(value)),
{
    DetailEntry { key: String::from_str(key), value: DetailValue::Count(value) }
}

/// Appends `event` and drops the oldest event once the log holds more than `MAX_EVENTS`.
pub fn record_event(log: &mut VecDeque<ConnectorEvent>, event: ConnectorEvent)
    ensures
        final(log)@ == appended(old(log)@, event),
{
    log.push_back(event);
    if log.len() > MAX_EVENTS {
        log.pop_front();
    }
}

/// Records an event created at Unix time `created_at`, stamped with a fresh id.
pub fn log_event_at(
    log: &mut VecDeque<ConnectorEvent>,
    event_type: &str,
    severity: &'static str,
    message: &str,
    request_id: &str,
    details: Vec<DetailEntry>,
    created_at: u64,
)
    ensures
        logged_at(
            old(log)@,
            final(log)@,
            event_type@,
            severity@,
            message@,
            request_id@,
            details_view(details@),
            created_at,
        ),
{
    let event = ConnectorEvent {
        id: generate_request_id(),
        event_type: String::from_str(event_type),
        severity,
        message: String::from_str(message),
        request_id: String::from_str(request_id),
        created_at,
        details,
    };
    let ghost e = event;
    record_event(log, event);
    assert(appended(old(log)@, e) == final(log)@);
}

/// Records an event, stamped with a fresh id and the current Unix time.
pub fn log_event(
    log: &mut VecDeque<ConnectorEvent>,
    event_type: &str,
    severity: &'static str,
    message: &str,
    request_id: &str,
    details: Vec<DetailEntry>,
)
    ensures
        exists|now: u64|
            #[trigger] logged_at(
                old(log)@,
                final(log)@,
                event_type@,
                severity@,
                message@,
                request_id@,
                details_view(details@),
                now,
            ),
        logged_for_request(
            old(log)@,
            final(log)@,
            event_type@,
            severity@,
            message@,
            request_id@,
            details_view(details@),
        ),
{
    let now = unix_now_secs();
    log_event_at(log, event_type, severity, message, request_id, details, now);
    proof {
        let e = choose|e: ConnectorEvent|
            {
                &&& #[trigger] appended(old(log)@, e) == final(log)@
                &&& event_says(e, event_type@, severity@, message@, details_view(details@))
                &&& e.request_id@ == request_id@
                &&& e.created_at == now
            };
        assert(appended(old(log)@, e) == final(log)@);
    }
}

/// Records an event under a freshly generated request id.
pub fn log_fresh_event(
    log: &mut VecDeque<ConnectorEvent>,
    event_type: &str,
    severity: &'static str,
    message: &str,
    details: Vec<DetailEntry>,
)
    ensures
        logged_fresh(old(log)@, final(log)@, event_type@, severity@, message@, details_view(details@)),
{
    let request_id = generate_request_id();
    log_event(log, event_type, severity, message, request_id.as_str(), details);
}

/// The events newest first, at most `MAX_EVENTS` of them.
pub fn recent_events(log: &VecDeque<ConnectorEvent>) -> (r: Vec<&ConnectorEvent>)
    ensures
        r@.len() == if log@.len() < MAX_EVENTS { log@.len() } else { MAX_EVENTS as nat },
        forall|i: int| 0 <= i < r@.len() ==> *r@[i] == log@[log@.len() - 1 - i],
{
    let n = log.len();
    let mut r: Vec<&ConnectorEvent> = Vec::new();
    let mut i: usize = 0;
    while i < n && i < MAX_EVENTS
        invariant
            n == log@.len(),
            i <= n,
            i <= MAX_EVENTS,
            r@.len() == i,
            forall|j: int| 0 <= j < i ==> *r@[j] == log@[n - 1 - j],
        decreases n - i,
    {
        r.push(&log[n - 1 - i]);
        i = i + 1;
    }
    r
}

/// The newest event, if any.
pub fn last_event(log: &VecDeque<ConnectorEvent>) -> (r: Option<&ConnectorEvent>)
    ensures
        r is None <==> log@.len() == 0,
        r matches Some(e) ==> *e == log@.last(),
{
    let n = log.len();
    if n == 0 {
        None
    } else {
        Some(&log[n - 1])
    }
}

} // verus!
