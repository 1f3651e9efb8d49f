use vstd::prelude::*;
use std::collections::VecDeque;
use axum::http::HeaderMap;
use crate::auth::{auth_verdict, origin_accepted, origin_allowed, validate_auth};
use crate::config::{configured, mode_name, paired, ConnectorConfig, MAX_EVENTS, VERSION};
use crate::errors::ApiError;
use crate::events::{
    details_view, generated_id_text, last_event, log_event, logged_for_request, recent_events,
    ConnectorEvent, DetailEntry,
};
use crate::headers::{claimed_origin, header_fields, presented_token, request_origin};
use crate::random::generate_request_id;
use crate::clock::{nanos_after, unix_now_secs, ConnectorClock};

verus! {

/// The answer to a health check.
pub struct HealthReport {
    pub ok: bool,
    pub name: &'static str,
    pub version: &'static str,
    pub server_time: u64,
    pub mode: &'static str,
}

/// What the connector can do, as the status answer lists it.
#[derive(Clone, Copy, Debug, PartialEq, Eq, Structural)]
pub struct Capabilities {
    pub pairing: bool,
    pub simulation: bool,
    pub diagnostics: bool,
    pub events: bool,
    pub printer_discovery: bool,
    pub live_escpos_drawer_kick: bool,
}

/// The answer to a successful simulation test.
pub struct SimulationReply {
    pub ok: bool,
    pub result: &'static str,
    pub message: &'static str,
    pub duration_ms: u64,
    pub request_id: String,
}

/// The newest event, as the status answer shows it.
pub struct LastEventSummary {
    pub event_type: String,
    pub severity: &'static str,
    pub message: String,
    pub created_at: u64,
}

/// The answer to a status request.
pub struct StatusReport {
    pub ok: bool,
    pub name: &'static str,
    pub version: &'static str,
    pub capabilities: Capabilities,
    pub mode: &'static str,
    pub paired: bool,
    pub origin_allowed: bool,
    pub configured: bool,
    pub setup_complete: bool,
    pub hardware_verified: bool,
    pub printer_ip: String,
    pub hardware_verified_at: Option<String>,
    pub hardware_source: Option<String>,
    pub last_event: Option<LastEventSummary>,
}

/// The name the connector reports.
pub open spec fn connector_name() -> Seq<char> {
    "franchisetech-connector"@
}

/// Every capability the connector has: all of them.
pub open spec fn all_capabilities() -> Capabilities {
    Capabilities {
        pairing: true,
        simulation: true,
        diagnostics: true,
        events: true,
        printer_discovery: true,
        live_escpos_drawer_kick: true,
    }
}

/// The whole milliseconds from clock reading `start` to clock reading `end`,
/// at zero when `end` is not later, cut to 64 bits.
pub open spec fn millis_between(start: u128, end: u128) -> u64 {
    (nanos_after(end, start) / 1_000_000) as u64
}

/// The text of an optional string.
pub open spec fn opt_text(o: Option<String>) -> Option<Seq<char>> {
    match o {
        Some(s) => Some(s@),
        None => None,
    }
}

/// The origins the server accepts: the configured ones, then the two local
/// development origins unless already present.
pub open spec fn with_origin(list: Seq<Seq<char>>, o: Seq<char>) -> Seq<Seq<char>> {
    if list.contains(o) {
        list
    } else {
        list.push(o)
    }
}

/// The texts of a list of strings.
pub open spec fn texts(v: Seq<String>) -> Seq<Seq<char>> {
    v.map_values(|s: String| s@)
}

fn copy_text(o: &Option<String>) -> (r: Option<String>)
    ensures
        opt_text(r) == opt_text(*o),
{
    match o {
        Some(s) => Some(s.clone()),
        None => None,
    }
}

/// The answer to a health check: the connector's name, version and mode.
pub fn health(config: &ConnectorConfig) -> (r: HealthReport)
    ensures
        r.ok,
        r.name@ == connector_name(),
        r.version@ == VERSION@,
        r.mode@ == mode_name(config.connector_run_mode),
{
    HealthReport {
        ok: true,
        name: "franchisetech-connector",
        version: VERSION,
        server_time: unix_now_secs(),
        mode: config.connector_run_mode.as_str(),
    }
}

/// The answer to a status request: refused when not authorised; else the
/// connector's name, version and capabilities, mode, pairing, whether the
/// request's origin passes, printer and hardware state (the printer address
/// only once one is set) and the newest event.
pub fn status(
    headers: &HeaderMap,
    config: &ConnectorConfig,
    log: &VecDeque<ConnectorEvent>,
) -> (res: Result<StatusReport, ApiError>)
    ensures
        ({
            let fields = header_fields(*headers);
            let verdict = auth_verdict(*config, claimed_origin(fields), presented_token(fields));
            &&& verdict is Err ==> (res matches Err(e) && e == verdict->Err_0)
            &&& verdict is Ok ==> (res matches Ok(r) && {
                &&& r.ok
                &&& r.name@ == connector_name()
                &&& r.version@ == VERSION@
                &&& r.capabilities == all_capabilities()
                &&& r.mode@ == mode_name(config.connector_run_mode)
                &&& r.paired == paired(*config)
                &&& r.origin_allowed == origin_accepted(*config, claimed_origin(fields))
                &&& r.configured == configured(*config)
                &&& r.setup_complete == config.setup_complete
                &&& r.hardware_verified == config.hardware_verified
                &&& r.printer_ip@ == if configured(*config) {
                    config.printer_ip@
                } else {
                    Seq::empty()
                }
                &&& opt_text(r.hardware_verified_at) == opt_text(config.last_hardware_verified_at)
                &&& opt_text(r.hardware_source) == opt_text(config.hardware_verification_source)
                &&& r.last_event is None <==> log@.len() == 0
                &&& r.last_event matches Some(e) ==> {
                    let newest = log@.last();
                    &&& e.event_type@ == newest.event_type@
                    &&& e.severity@ == newest.severity@
                    &&& e.message@ == newest.message@
                    &&& e.created_at == newest.created_at
                }
            })
        }),
{
    if let Err(e) = validate_auth(headers, config) {
        return Err(e);
    }
    let has_printer = !config.printer_ip.as_str().is_empty();
    let origin = request_origin(headers);
    let newest = match last_event(log) {
        Some(e) => Some(
            LastEventSummary {
                event_type: e.event_type.clone(),
                severity: e.severity,
                message: e.message.clone(),
                created_at: e.created_at,
            },
        ),
        None => None,
    };
    Ok(
        StatusReport {
            ok: true,
            name: "franchisetech-connector",
            version: VERSION,
            capabilities: Capabilities {
                pairing: true,
                simulation: true,
                diagnostics: true,
                events: true,
                printer_discovery: true,
                live_escpos_drawer_kick: true,
            },
            mode: config.connector_run_mode.as_str(),
            paired: !config.pairing_token.as_str().is_empty(),
            origin_allowed: origin_allowed(config, origin.as_str()),
            configured: has_printer,
            setup_complete: config.setup_complete,
            hardware_verified: config.hardware_verified,
            printer_ip: if has_printer {
                config.printer_ip.clone()
            } else {
                String::new()
            },
            hardware_verified_at: copy_text(&config.last_hardware_verified_at),
            hardware_source: copy_text(&config.hardware_verification_source),
            last_event: newest,
        },
    )
}

/// Whether `list` holds a string with the characters of `o`.
fn holds_text(list: &Vec<String>, o: &str) -> (b: bool)
    ensures
        b == texts(list@).contains(o@),
{
    let n = list.len();
    let mut i: usize = 0;
    while i < n
        invariant
            n == list@.len(),
            i <= n,
            forall|j: int| 0 <= j < i ==> list@[j]@ != o@,
        decreases n - i,
    {
        if list[i] == String::from_str(o) {
            assert(texts(list@)[i as int] == o@);
            return true;
        }
        i = i + 1;
    }
    assert forall|j: int| 0 <= j < texts(list@).len() implies texts(list@)[j] != o@ by {}
    false
}

/// The origins the server accepts: the configured ones, then
/// `http://localhost:3000` and `http://localhost:3001` unless already present.
pub fn server_origins(configured_origins: &Vec<String>) -> (r: Vec<String>)
    ensures
        texts(r@) == with_origin(
            with_origin(texts(configured_origins@), "http://localhost:3000"@),
            "http://localhost:3001"@,
        ),
{
    let n = configured_origins.len();
    let mut r: Vec<String> = Vec::new();
    let mut i: usize = 0;
    while i < n
        invariant
            n == configured_origins@.len(),
            i <= n,
            texts(r@) =~= texts(configured_origins@.subrange(0, i as int)),
        decreases n - i,
    {
        r.push(configured_origins[i].clone());
        assert(texts(configured_origins@.subrange(0, i + 1)) =~= texts(
            configured_origins@.subrange(0, i as int),
        ).push(configured_origins@[i as int]@));
        i = i + 1;
    }
    assert(configured_origins@.subrange(0, n as int) =~= configured_origins@);
    if !holds_text(&r, "http://localhost:3000") {
        let ghost before = texts(r@);
        r.push(String::from_str("http://localhost:3000"));
        assert(texts(r@) =~= before.push("http://localhost:3000"@));
    }
    if !holds_text(&r, "http://localhost:3001") {
        let ghost before = texts(r@);
        r.push(String::from_str("http://localhost:3001"));
        assert(texts(r@) =~= before.push("http://localhost:3001"@));
    }
    r
}


/// The whole milliseconds from clock reading `start` to clock reading `end`.
pub fn millis_from(start: u128, end: u128) -> (r: u64)
    ensures
        r == millis_between(start, end),
{
    let nanos = if end >= start { end - start } else { 0 };
    (nanos / 1_000_000) as u64
}

/// Runs the simulation test of a protected request: refused when not
/// authorised; else logged under a fresh request id and answered with
/// `simulation_success`, that id and how long the test took.
pub fn simulate(
    headers: &HeaderMap,
    config: &ConnectorConfig,
    clock: &ConnectorClock,
    log: &mut VecDeque<ConnectorEvent>,
) -> (res: Result<SimulationReply, ApiError>)
    ensures
        ({
            let fields = header_fields(*headers);
            let verdict = auth_verdict(*config, claimed_origin(fields), presented_token(fields));
            &&& verdict is Err ==> (res matches Err(e) && e == verdict->Err_0 && final(log)@
                == old(log)@)
            &&& verdict is Ok ==> (res matches Ok(r) && {
                &&& r.ok
                &&& r.result@ == "simulation_success"@
                &&& r.message@ == "Simulation succeeded. Connector ↔ web communication is working."@
                &&& exists|start: u128, end: u128| r.duration_ms == #[trigger] millis_between(start, end)
                &&& generated_id_text(r.request_id@)
                &&& logged_for_request(
                    old(log)@,
                    final(log)@,
                    "simulation_run"@,
                    "info"@,
                    "Simulation test passed — no printer needed"@,
                    r.request_id@,
                    seq![],
                )
            })
        }),
{
    if let Err(e) = validate_auth(headers, config) {
        return Err(e);
    }
    let req_id = generate_request_id();
    let start = clock.now_nanos();
    let details: Vec<DetailEntry> = Vec::new();
    assert(details_view(details@) =~= seq![]);
    log_event(
        log,
        "simulation_run",
        "info",
        "Simulation test passed — no printer needed",
        req_id.as_str(),
        details,
    );
    let end = clock.now_nanos();
    Ok(
        SimulationReply {
            ok: true,
            result: "simulation_success",
            message: "Simulation succeeded. Connector ↔ web communication is working.",
            duration_ms: millis_from(start, end),
            request_id: req_id,
        },
    )
}

/// The recent events of a protected request: refused when not authorised, else
/// the events newest first, at most `MAX_EVENTS` of them.
pub fn events_recent<'a>(
    headers: &HeaderMap,
    config: &ConnectorConfig,
    log: &'a VecDeque<ConnectorEvent>,
) -> (r: Result<Vec<&'a ConnectorEvent>, ApiError>)
    ensures
        ({
            let fields = header_fields(*headers);
            let verdict = auth_verdict(*config, claimed_origin(fields), presented_token(fields));
            &&& verdict is Err ==> r == Err::<Vec<&'a ConnectorEvent>, ApiError>(verdict->Err_0)
            &&& verdict is Ok ==> (r matches Ok(v) && {
                &&& v@.len() == if log@.len() < MAX_EVENTS {
                    log@.len()
                } else {
                    MAX_EVENTS as nat
                }
                &&& forall|i: int| 0 <= i < v@.len() ==> *v@[i] == log@[log@.len() - 1 - i]
            })
        }),
{
    if let Err(e) = validate_auth(headers, config) {
        return Err(e);
    }
    Ok(recent_events(log))
}

} // verus!
