use axum::http::{HeaderMap, HeaderValue};
use franchisetech_connector::{
    approve_pairing_request, default_config, diagnostics_finish, diagnostics_start, events_recent, finish_setup_state,
    generate_pairing_token, health, log_event, needs_port_probe, open_drawer, pair_status,
    simulate, unix_now_secs, ApiError, ConnectorConfig, ConnectorEvent,
    ConnectorClock, ConnectorRunMode, DetailEntry, DetailValue, DrawerOutcome, DrawerRequest, PendingPairing,
    PortProbe, Verdict,
};
use std::collections::VecDeque;
use std::time::SystemTime;

fn test_config() -> ConnectorConfig {
    ConnectorConfig {
        printer_type: "network_escpos".to_string(),
        printer_ip: "192.168.1.100".to_string(),
        printer_port: 9100,
        drawer_kick_command: "1B700019FA".to_string(),
        pairing_token: "FT-testtoken123".to_string(),
        allowed_origins: vec!["http://localhost:3000".to_string()],
        dev_mode: false,
        start_at_login: false,
        setup_complete: true,
        hardware_verified: true,
        last_hardware_verified_at: None,
        hardware_verification_source: None,
        connector_run_mode: ConnectorRunMode::Live,
    }
}

fn headers(origin: &str, token: Option<&str>) -> HeaderMap {
    let mut h = HeaderMap::new();
    h.insert("content-type", HeaderValue::from_static("application/json"));
    h.insert("origin", HeaderValue::from_str(origin).unwrap());
    if let Some(t) = token {
        h.insert("x-connector-token", HeaderValue::from_str(t).unwrap());
    }
    h
}

fn body(reason: Option<&str>) -> Option<DrawerRequest> {
    Some(DrawerRequest { reason: reason.map(|r| r.to_string()) })
}

fn drawer(cfg: &ConnectorConfig, origin: &str, token: Option<&str>, reason: Option<&str>) -> (DrawerOutcome, VecDeque<ConnectorEvent>) {
    let mut last: Option<u128> = None;
    let clock = ConnectorClock::start();
    let mut log: VecDeque<ConnectorEvent> = VecDeque::new();
    let out = open_drawer(&headers(origin, token), cfg, body(reason), &mut last, &clock, &mut log);
    (out, log)
}

fn refused(out: &DrawerOutcome) -> ApiError {
    match out {
        DrawerOutcome::Refused(e) => *e,
        DrawerOutcome::Kick { .. } => panic!("expected a refusal"),
    }
}

#[test]
fn health_returns_ok() {
    let report = health(&test_config());
    assert!(report.ok);
    assert_eq!(report.name, "franchisetech-connector");
    assert_eq!(report.version, "0.3.0");
}

#[test]
fn health_includes_mode_and_server_time() {
    let report = health(&test_config());
    assert_eq!(report.mode, "live");
    assert!(report.server_time > 0);
    assert!(report.server_time <= unix_now_secs());
}

#[test]
fn pair_status_returns_approved() {
    let status = pair_status(&headers("http://localhost:3000", Some("FT-testtoken123")), &test_config(), &None).unwrap();
    assert_eq!(status.as_str(), "approved");
}

#[test]
fn pairing_token_has_ft_prefix() {
    let token = generate_pairing_token();
    assert!(token.starts_with("FT-"), "Token should start with FT-, got: {}", token);
}

#[test]
fn hardware_verified_defaults_to_false() {
    let cfg = default_config();
    assert!(!cfg.hardware_verified);
    assert!(cfg.last_hardware_verified_at.is_none());
}

#[test]
fn connector_run_mode_defaults_to_simulation() {
    let cfg = default_config();
    assert_eq!(cfg.connector_run_mode, ConnectorRunMode::Simulation);
}

#[test]
fn origin_rejected_returns_403() {
    let (out, _) = drawer(&test_config(), "http://evil.com", Some("FT-testtoken123"), Some("sale"));
    let reply = refused(&out).reply();
    assert_eq!(reply.status, 403);
    assert_eq!(reply.result, "origin_rejected");
}

#[test]
fn invalid_token_returns_401() {
    let (out, _) = drawer(&test_config(), "http://localhost:3000", Some("FT-wrong"), Some("sale"));
    let reply = refused(&out).reply();
    assert_eq!(reply.status, 401);
    assert_eq!(reply.result, "invalid_token");
}

#[test]
fn missing_token_returns_401() {
    let (out, _) = drawer(&test_config(), "http://localhost:3000", None, Some("sale"));
    let reply = refused(&out).reply();
    assert_eq!(reply.status, 401);
    assert_eq!(reply.result, "missing_token");
}

#[test]
fn approve_pairing_does_not_auto_set_setup_complete() {
    let mut cfg = default_config();
    cfg.allowed_origins = vec!["http://localhost:3000".to_string()];
    let mut pending = Some(PendingPairing {
        token: "FT-abc".to_string(),
        terminal_id: String::new(),
        location_id: String::new(),
        origin: "http://localhost:3000".to_string(),
        requested_at: SystemTime::now(),
    });
    let mut log: VecDeque<ConnectorEvent> = VecDeque::new();
    approve_pairing_request(&mut pending, &mut cfg, &mut log).unwrap();
    assert_eq!(cfg.pairing_token, "FT-abc");
    assert!(!cfg.setup_complete, "setup_complete must not be auto-set");
}

#[test]
fn simulation_mode_open_drawer_returns_simulation_only() {
    let mut cfg = test_config();
    cfg.connector_run_mode = ConnectorRunMode::Simulation;
    cfg.printer_ip = String::new();
    let (out, _) = drawer(&cfg, "http://localhost:3000", Some("FT-testtoken123"), Some("sale"));
    let reply = refused(&out).reply();
    assert_eq!(reply.status, 200);
    assert_eq!(reply.result, "simulation_only");
}

#[test]
fn simulation_mode_test_drawer_returns_simulation_only() {
    let mut cfg = test_config();
    cfg.connector_run_mode = ConnectorRunMode::Simulation;
    cfg.printer_ip = String::new();
    let (out, _) = drawer(&cfg, "http://localhost:3000", Some("FT-testtoken123"), None);
    let reply = refused(&out).reply();
    assert_eq!(reply.status, 200);
    assert_eq!(reply.result, "simulation_only");
}

#[test]
fn diagnostic_mode_returns_diagnostic_only() {
    let mut cfg = test_config();
    cfg.connector_run_mode = ConnectorRunMode::Diagnostic;
    let (out, _) = drawer(&cfg, "http://localhost:3000", Some("FT-testtoken123"), Some("sale"));
    let reply = refused(&out).reply();
    assert_eq!(reply.status, 200);
    assert_eq!(reply.result, "diagnostic_only");
}

#[test]
fn simulate_endpoint_returns_simulation_success() {
    let clock = ConnectorClock::start();
    let mut log: VecDeque<ConnectorEvent> = VecDeque::new();
    let reply = simulate(&headers("http://localhost:3000", Some("FT-testtoken123")), &test_config(), &clock, &mut log).unwrap();
    assert_eq!(reply.result, "simulation_success");
    assert!(reply.ok);
    assert!(reply.duration_ms < 60_000);
    assert!(reply.request_id.starts_with("req-"));
    assert_eq!(log.len(), 1);
    assert_eq!(log[0].event_type, "simulation_run");
    assert_eq!(log[0].request_id, reply.request_id);
}

#[test]
fn simulate_endpoint_works_without_printer_ip() {
    let mut cfg = test_config();
    cfg.printer_ip = String::new();
    let clock = ConnectorClock::start();
    let mut log: VecDeque<ConnectorEvent> = VecDeque::new();
    let reply = simulate(&headers("http://localhost:3000", Some("FT-testtoken123")), &cfg, &clock, &mut log).unwrap();
    assert_eq!(reply.result, "simulation_success");
}

fn diagnostics_for(cfg: &ConnectorConfig, probe_when_needed: PortProbe) -> franchisetech_connector::DiagnosticsAnswer {
    let clock = ConnectorClock::start();
    let plan = diagnostics_start(&headers("http://localhost:3000", Some("FT-testtoken123")), cfg, &clock).unwrap();
    let probe = if needs_port_probe(&plan.printer_ip) { Some(probe_when_needed) } else { None };
    let mut log: VecDeque<ConnectorEvent> = VecDeque::new();
    let answer = diagnostics_finish(plan, probe, &clock, &mut log);
    assert_eq!(log.len(), 1);
    assert_eq!(log[0].request_id, answer.request_id);
    answer
}

#[test]
fn diagnostics_returns_printer_ip_missing_check_when_no_ip() {
    let mut cfg = test_config();
    cfg.printer_ip = String::new();
    let report = diagnostics_for(&cfg, PortProbe::Timeout);
    let ip_check = report.checks.iter().find(|c| c.name == "printer_ip_configured").unwrap();
    assert_eq!(ip_check.result, Verdict::Failed);
    assert_eq!(report.overall.as_str(), "failed");
    assert_eq!(report.result, "diagnostic_failed");
    assert!(!report.ok);
}

#[test]
fn diagnostics_run_includes_required_checks() {
    let report = diagnostics_for(&test_config(), PortProbe::Timeout);
    let names: Vec<&str> = report.checks.iter().map(|c| c.name).collect();
    assert!(names.contains(&"connector_alive"));
    assert!(names.contains(&"paired"));
    assert!(names.contains(&"printer_ip_configured"));
    assert!(names.contains(&"hardware_verified"));
    assert!(names.contains(&"live_ready"));
}

#[test]
fn events_recent_returns_log() {
    let cfg = test_config();
    let h = headers("http://localhost:3000", Some("FT-testtoken123"));
    let mut log: VecDeque<ConnectorEvent> = VecDeque::new();
    let clock = ConnectorClock::start();
    let _ = simulate(&h, &cfg, &clock, &mut log);
    let events = events_recent(&h, &cfg, &log).unwrap();
    assert!(events.len() > 0);
}

fn event_mentions(e: &ConnectorEvent, needle: &str) -> bool {
    let in_details = e.details.iter().any(|d: &DetailEntry| {
        d.key.contains(needle)
            || match &d.value {
                DetailValue::Text(s) => s.contains(needle),
                _ => false,
            }
    });
    e.id.contains(needle)
        || e.event_type.contains(needle)
        || e.severity.contains(needle)
        || e.message.contains(needle)
        || e.request_id.contains(needle)
        || in_details
}

#[test]
fn events_do_not_include_token() {
    let cfg = test_config();
    let mut log: VecDeque<ConnectorEvent> = VecDeque::new();
    let note = vec![DetailEntry { key: "note".to_string(), value: DetailValue::Text("should-not-contain-token".to_string()) }];
    log_event(&mut log, "test", "info", "test event", "req-123", note);
    let events = events_recent(&headers("http://localhost:3000", Some("FT-testtoken123")), &cfg, &log).unwrap();
    assert!(!events.iter().any(|e| event_mentions(e, "FT-testtoken123")));
}

#[test]
fn live_mode_printer_ip_missing_returns_specific_error() {
    let mut cfg = test_config();
    cfg.connector_run_mode = ConnectorRunMode::Live;
    cfg.printer_ip = String::new();
    let (out, _) = drawer(&cfg, "http://localhost:3000", Some("FT-testtoken123"), Some("sale"));
    assert_eq!(refused(&out).reply().result, "printer_ip_missing");
}

#[test]
fn finish_setup_state_sets_setup_complete() {
    let mut cfg = default_config();
    let mut log: VecDeque<ConnectorEvent> = VecDeque::new();
    finish_setup_state(&mut cfg, &mut log, true);
    assert!(cfg.setup_complete);
    assert!(cfg.hardware_verified);
    assert!(cfg.last_hardware_verified_at.is_some());
}

#[test]
fn finish_setup_without_hw_does_not_set_hw_verified() {
    let mut cfg = default_config();
    let mut log: VecDeque<ConnectorEvent> = VecDeque::new();
    finish_setup_state(&mut cfg, &mut log, false);
    assert!(cfg.setup_complete);
    assert!(!cfg.hardware_verified);
}
