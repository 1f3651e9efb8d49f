use axum::http::{HeaderMap, HeaderValue};
use franchisetech_connector::{
    allowed_origin, approve_pairing_request, check_auth, check_rate_limit, chrono_like_timestamp,
    diagnostics_start, rate_limit_at, simulate, ConnectorClock, Capabilities,
    connection_test_plan, connection_test_result, decimal_string, default_config, deny_pairing_request,
    diagnostics_result, discover_network_printers, drawer_kick_bytes, export_config,
    generate_pairing_token, generate_request_id, header_value_text, hex_fixed_string, is_configured,
    kick_reply, last_lines, log_diagnostics, log_event, open_drawer, origin_allowed, pair_start,
    pair_status, pending_pairing_request, printer_address, rate_limit_verdict, record_event,
    recent_events, request_id_from, request_origin, request_token, diagnostics_run, select_printer,
    server_origins, starts_with, status, test_open_plan, test_open_result, trim_end_slashes,
    upper_snake_string, validate_auth, ApiError, ConnectionTestPlan, ConnectorConfig, ConnectorEvent,
    ConnectorRunMode, DetailEntry, DetailValue, DrawerOutcome, DrawerRequest, KickOutcome,
    PairStatus, PortProbe, PrinterCandidate, TestOpenPlan, Verdict, MAX_EVENTS, VERSION,
};
use std::collections::VecDeque;

fn live_config() -> ConnectorConfig {
    ConnectorConfig {
        printer_type: "network_escpos".to_string(),
        printer_ip: "192.168.1.100".to_string(),
        printer_port: 9100,
        drawer_kick_command: "1B700019FA".to_string(),
        pairing_token: "FT-testtoken123".to_string(),
        allowed_origins: vec!["http://localhost:3000".to_string()],
        dev_mode: false,
        start_at_login: false,
        setup_complete: true,
        hardware_verified: true,
        last_hardware_verified_at: None,
        hardware_verification_source: None,
        connector_run_mode: ConnectorRunMode::Live,
    }
}

fn headers_with(pairs: &[(&'static str, &str)]) -> HeaderMap {
    let mut h = HeaderMap::new();
    for (k, v) in pairs {
        h.insert(*k, HeaderValue::from_str(v).unwrap());
    }
    h
}

fn event(n: u64) -> ConnectorEvent {
    ConnectorEvent {
        id: format!("id-{}", n),
        event_type: "test".to_string(),
        severity: "info",
        message: format!("event {}", n),
        request_id: "req-1".to_string(),
        created_at: n,
        details: vec![],
    }
}

#[test]
fn default_config_matches_documented_defaults() {
    let cfg = default_config();
    assert_eq!(cfg.printer_type, "network_escpos");
    assert_eq!(cfg.printer_ip, "");
    assert_eq!(cfg.printer_port, 9100);
    assert_eq!(cfg.drawer_kick_command, "1B700019FA");
    assert_eq!(cfg.pairing_token, "");
    assert_eq!(cfg.allowed_origins, vec!["https://franchisetech.ro".to_string()]);
    assert!(!cfg.dev_mode);
    assert!(cfg.start_at_login);
    assert!(!cfg.setup_complete);
    assert!(cfg.hardware_verification_source.is_none());
    assert!(!is_configured(&cfg));
    assert!(is_configured(&live_config()));
}

#[test]
fn run_mode_names() {
    assert_eq!(ConnectorRunMode::Simulation.as_str(), "simulation");
    assert_eq!(ConnectorRunMode::Diagnostic.as_str(), "diagnostic");
    assert_eq!(ConnectorRunMode::Live.as_str(), "live");
    assert_eq!(ConnectorRunMode::default(), ConnectorRunMode::Simulation);
    assert_eq!(VERSION, "0.3.0");
}

#[test]
fn every_error_code_is_its_result_in_upper_case() {
    let all = [
        ApiError::OriginRejected,
        ApiError::MissingToken,
        ApiError::InvalidToken,
        ApiError::NotPaired,
        ApiError::RateLimited,
        ApiError::PrinterIpMissing,
        ApiError::HardwareNotVerified,
        ApiError::SimulationOnly,
        ApiError::DiagnosticOnly,
    ];
    for e in all {
        let r = e.reply();
        assert_eq!(r.error_code, r.result.to_uppercase());
    }
    assert_eq!(ApiError::RateLimited.reply().status, 429);
    assert_eq!(ApiError::PrinterIpMissing.reply().status, 422);
    assert_eq!(ApiError::HardwareNotVerified.reply().status, 412);
    assert_eq!(ApiError::NotPaired.reply().message, "No pairing token is configured.");
}

#[test]
fn origin_check_trims_trailing_slashes_and_falls_back_to_referer() {
    let mut cfg = live_config();
    cfg.allowed_origins = vec!["https://franchisetech.ro//".to_string()];
    assert_eq!(allowed_origin(&cfg), "https://franchisetech.ro//");
    assert!(origin_allowed(&cfg, "https://franchisetech.ro"));
    assert!(origin_allowed(&cfg, "https://franchisetech.ro/pos"));
    assert!(!origin_allowed(&cfg, "https://franchisetech.r"));
    let referer_only = headers_with(&[("referer", "https://franchisetech.ro/sale")]);
    assert_eq!(request_origin(&referer_only), "https://franchisetech.ro/sale");
    cfg.allowed_origins = vec![];
    assert_eq!(allowed_origin(&cfg), "");
    assert!(origin_allowed(&cfg, "http://anything"));
}

#[test]
fn origin_header_wins_over_referer_even_when_unreadable() {
    let mut h = HeaderMap::new();
    h.insert("origin", HeaderValue::from_bytes(&[b'h', 0x80]).unwrap());
    h.insert("referer", HeaderValue::from_static("http://localhost:3000"));
    assert_eq!(request_origin(&h), "");
    assert_eq!(validate_auth(&h, &live_config()), Err(ApiError::OriginRejected));
}

#[test]
fn header_text_accepts_visible_ascii_and_tab_only() {
    assert_eq!(header_value_text(&b"a\tb ~".to_vec()), Some("a\tb ~".to_string()));
    assert_eq!(header_value_text(&vec![b'a', 0x7f]), None);
    assert_eq!(header_value_text(&vec![]), Some(String::new()));
    let h = headers_with(&[("x-connector-token", "FT-abc")]);
    assert_eq!(request_token(&h), "FT-abc");
    assert_eq!(request_token(&HeaderMap::new()), "");
}

#[test]
fn auth_checks_origin_then_pairing_then_token() {
    let cfg = live_config();
    assert_eq!(check_auth("http://evil.com", "", &cfg), Err(ApiError::OriginRejected));
    assert_eq!(check_auth("http://localhost:3000", "", &cfg), Err(ApiError::MissingToken));
    assert_eq!(check_auth("http://localhost:3000", "FT-x", &cfg), Err(ApiError::InvalidToken));
    assert_eq!(check_auth("http://localhost:3000/page", "FT-testtoken123", &cfg), Ok(()));
    let mut unpaired = live_config();
    unpaired.pairing_token = String::new();
    assert_eq!(check_auth("http://localhost:3000", "", &unpaired), Err(ApiError::NotPaired));
}

#[test]
fn event_log_keeps_the_newest_fifty() {
    let mut log: VecDeque<ConnectorEvent> = VecDeque::new();
    for n in 0..60u64 {
        record_event(&mut log, event(n));
        assert!(log.len() <= MAX_EVENTS);
    }
    assert_eq!(log.len(), 50);
    assert_eq!(log.front().unwrap().created_at, 10);
    assert_eq!(log.back().unwrap().created_at, 59);
    let recent = recent_events(&log);
    assert_eq!(recent.len(), 50);
    assert_eq!(recent[0].created_at, 59);
    assert_eq!(recent[49].created_at, 10);
}

#[test]
fn logged_events_carry_a_generated_id() {
    let mut log: VecDeque<ConnectorEvent> = VecDeque::new();
    log_event(&mut log, "kind", "warning", "msg", "req-9", vec![]);
    let e = &log[0];
    assert!(e.id.starts_with("req-"));
    assert_eq!(e.id.len(), 14);
    assert_eq!(e.request_id, "req-9");
    assert_eq!(e.severity, "warning");
}

#[test]
fn rate_limit_refuses_within_one_second() {
    assert_eq!(rate_limit_verdict(None), Ok(()));
    assert_eq!(rate_limit_verdict(Some(999_999_999)), Err(ApiError::RateLimited));
    assert_eq!(rate_limit_verdict(Some(1_000_000_000)), Ok(()));
    let mut last: Option<u128> = None;
    assert_eq!(rate_limit_at(&mut last, 5_000_000_000), Ok(()));
    assert_eq!(last, Some(5_000_000_000));
    assert_eq!(rate_limit_at(&mut last, 5_999_999_999), Err(ApiError::RateLimited));
    assert_eq!(last, Some(5_000_000_000));
    assert_eq!(rate_limit_at(&mut last, 6_000_000_000), Ok(()));
    assert_eq!(last, Some(6_000_000_000));
    assert_eq!(rate_limit_at(&mut last, 1), Err(ApiError::RateLimited));
    assert_eq!(last, Some(6_000_000_000));
}

#[test]
fn rate_limit_reads_the_connector_clock() {
    let clock = ConnectorClock::start();
    let mut last: Option<u128> = None;
    assert_eq!(check_rate_limit(&mut last, &clock), Ok(()));
    let first = last.unwrap();
    assert!(first <= clock.now_nanos());
    assert_eq!(check_rate_limit(&mut last, &clock), Err(ApiError::RateLimited));
    assert_eq!(last, Some(first));
    assert!(clock.now_nanos() >= first);
}

#[test]
fn live_drawer_command_is_sent_to_the_configured_printer() {
    let h = headers_with(&[("origin", "http://localhost:3000"), ("x-connector-token", "FT-testtoken123")]);
    let mut last: Option<u128> = None;
    let clock = ConnectorClock::start();
    let mut log: VecDeque<ConnectorEvent> = VecDeque::new();
    let out = open_drawer(&h, &live_config(), Some(DrawerRequest { reason: None }), &mut last, &clock, &mut log);
    match out {
        DrawerOutcome::Kick { ip, request_id, reason } => {
            assert_eq!(ip, "192.168.1.100");
            assert_eq!(reason, "sale");
            assert!(request_id.starts_with("req-"));
        }
        DrawerOutcome::Refused(e) => panic!("refused: {:?}", e),
    }
    assert!(log.is_empty());
    let accepted_at = last;
    assert!(accepted_at.is_some());
    let again = open_drawer(&h, &live_config(), None, &mut last, &clock, &mut log);
    assert_eq!(last, accepted_at);
    assert!(matches!(again, DrawerOutcome::Refused(ApiError::RateLimited)));
}

#[test]
fn simulation_refusal_is_logged_with_reason() {
    let mut cfg = live_config();
    cfg.connector_run_mode = ConnectorRunMode::Simulation;
    let h = headers_with(&[("origin", "http://localhost:3000"), ("x-connector-token", "FT-testtoken123")]);
    let mut last: Option<u128> = None;
    let clock = ConnectorClock::start();
    let mut log: VecDeque<ConnectorEvent> = VecDeque::new();
    let out = open_drawer(&h, &cfg, Some(DrawerRequest { reason: Some("refund".to_string()) }), &mut last, &clock, &mut log);
    assert!(matches!(out, DrawerOutcome::Refused(ApiError::SimulationOnly)));
    assert!(last.is_none());
    assert_eq!(log.len(), 1);
    assert_eq!(log[0].event_type, "drawer_simulation_only");
    assert_eq!(log[0].details[0].value, DetailValue::Text("refund".to_string()));
}

#[test]
fn kick_replies_name_each_ending() {
    let mut log: VecDeque<ConnectorEvent> = VecDeque::new();
    let r = kick_reply(KickOutcome::ConnectionRefused("refused".to_string()), "10.0.0.5", "req-1", "sale", &mut log);
    assert_eq!(r.status, 503);
    assert_eq!(r.result, "printer_connection_refused");
    assert_eq!(r.error_code.as_deref(), Some("PRINTER_CONNECTION_REFUSED"));
    assert_eq!(log[0].event_type, "drawer_connection_failed");
    assert_eq!(log[0].details.len(), 3);
    let r = kick_reply(KickOutcome::Unreachable("no route".to_string()), "10.0.0.5", "req-2", "sale", &mut log);
    assert_eq!(r.error_code.as_deref(), Some("PRINTER_UNREACHABLE"));
    assert_eq!(r.message, "Printer is not reachable.");
    let r = kick_reply(KickOutcome::Timeout, "10.0.0.5", "req-3", "sale", &mut log);
    assert_eq!(r.error_code.as_deref(), Some("PRINTER_CONNECTION_TIMEOUT"));
    let r = kick_reply(KickOutcome::WriteFailed("broken pipe".to_string()), "10.0.0.5", "req-4", "sale", &mut log);
    assert_eq!(r.status, 500);
    assert_eq!(r.error_code.as_deref(), Some("PRINTER_WRITE_FAILED"));
    let r = kick_reply(KickOutcome::Sent, "10.0.0.5", "req-5", "sale", &mut log);
    assert!(r.ok);
    assert_eq!(r.status, 200);
    assert_eq!(r.result, "command_sent");
    assert!(r.error_code.is_none());
    assert_eq!(r.request_id, "req-5");
    assert_eq!(log.len(), 5);
    assert_eq!(log[4].event_type, "drawer_command_sent");
    assert_eq!(log[4].request_id, "req-5");
}

#[test]
fn text_formatting() {
    assert_eq!(decimal_string(0), "0");
    assert_eq!(decimal_string(9100), "9100");
    assert_eq!(decimal_string(u64::MAX), u64::MAX.to_string());
    assert_eq!(hex_fixed_string(255, 4), "00ff");
    assert_eq!(hex_fixed_string(0xabcdef, 6), "abcdef");
    assert_eq!(request_id_from(0x1234, 0xabcdef), "req-1234abcdef");
    assert_eq!(request_id_from(0xFFFF, 1), "req-0000000001");
    assert_eq!(printer_address("10.0.0.5", 9100), "10.0.0.5:9100");
    assert_eq!(upper_snake_string("printer-write_failed"), "PRINTER_WRITE_FAILED");
    assert!(starts_with("abc", "ab"));
    assert!(!starts_with("ab", "abc"));
    assert_eq!(trim_end_slashes("https://x.ro///"), "https://x.ro");
    assert_eq!(trim_end_slashes("///"), "");
    assert_eq!(drawer_kick_bytes(), vec![0x1B, 0x70, 0x00, 0x19, 0xFA]);
}

#[test]
fn generated_ids_and_tokens_have_their_shape() {
    let id = generate_request_id();
    assert_eq!(id.len(), 14);
    assert!(id.starts_with("req-"));
    assert!(id[4..].chars().all(|c| c.is_ascii_hexdigit() && !c.is_ascii_uppercase()));
    let t = generate_pairing_token();
    assert_eq!(t.len(), 27);
    assert!(t[3..].chars().all(|c| c.is_ascii_alphanumeric()));
    assert_ne!(t, generate_pairing_token());
    let ts = chrono_like_timestamp();
    assert!(!ts.is_empty() && ts.chars().all(|c| c.is_ascii_digit()));
}

#[test]
fn pairing_round_trip_authorises_the_new_token() {
    let mut cfg = default_config();
    cfg.allowed_origins = vec!["http://localhost:3000".to_string()];
    let mut pending = None;
    let mut log: VecDeque<ConnectorEvent> = VecDeque::new();
    let evil = headers_with(&[("origin", "http://evil.com")]);
    assert_eq!(pair_start(&evil, &cfg, &mut pending, &mut log), Err(ApiError::OriginRejected));
    assert!(pending.is_none() && log.is_empty());
    let local = headers_with(&[("origin", "http://localhost:3000")]);
    assert_eq!(pair_status(&local, &cfg, &pending).unwrap(), PairStatus::Unpaired);
    let token = pair_start(&local, &cfg, &mut pending, &mut log).unwrap();
    assert!(token.starts_with("FT-"));
    assert_eq!(pair_status(&local, &cfg, &pending).unwrap(), PairStatus::Pending);
    let view = pending_pairing_request(&pending).unwrap();
    assert_eq!(view.token, token);
    assert_eq!(view.origin, "http://localhost:3000");
    assert_eq!(approve_pairing_request(&mut pending, &mut cfg, &mut log), Ok(token.clone()));
    assert!(pending.is_none());
    assert!(matches!(pair_status(&local, &cfg, &pending).unwrap(), PairStatus::Approved { setup_complete: false, .. }));
    let authed = headers_with(&[("origin", "http://localhost:3000"), ("x-connector-token", &token)]);
    assert_eq!(validate_auth(&authed, &cfg), Ok(()));
    assert_eq!(log.len(), 2);
    assert_eq!(log[1].event_type, "pair_approved");
    assert_eq!(approve_pairing_request(&mut pending, &mut cfg, &mut log), Err("No pending pairing request".to_string()));
    assert_eq!(deny_pairing_request(&mut pending, &mut log), Ok(()));
    assert_eq!(log.back().unwrap().event_type, "pair_denied");
}

#[test]
fn status_requires_the_token_and_an_allowed_origin() {
    let cfg = live_config();
    let log: VecDeque<ConnectorEvent> = VecDeque::new();
    let evil = headers_with(&[("origin", "http://evil.com"), ("x-connector-token", "FT-testtoken123")]);
    assert_eq!(status(&evil, &cfg, &log).err(), Some(ApiError::OriginRejected));
    let no_token = headers_with(&[("origin", "http://localhost:3000")]);
    assert_eq!(status(&no_token, &cfg, &log).err(), Some(ApiError::MissingToken));
    let wrong = headers_with(&[("origin", "http://localhost:3000"), ("x-connector-token", "FT-wrong")]);
    assert_eq!(status(&wrong, &cfg, &log).err(), Some(ApiError::InvalidToken));
}

#[test]
fn status_hides_the_printer_until_configured() {
    let mut cfg = live_config();
    cfg.printer_ip = String::new();
    let h = headers_with(&[("origin", "http://localhost:3000"), ("x-connector-token", "FT-testtoken123")]);
    let log: VecDeque<ConnectorEvent> = VecDeque::new();
    let s = status(&h, &cfg, &log).unwrap();
    assert!(s.ok);
    assert_eq!(s.name, "franchisetech-connector");
    assert_eq!(s.version, "0.3.0");
    assert_eq!(
        s.capabilities,
        Capabilities {
            pairing: true,
            simulation: true,
            diagnostics: true,
            events: true,
            printer_discovery: true,
            live_escpos_drawer_kick: true,
        }
    );
    assert!(s.origin_allowed);
    assert!(!s.configured);
    assert_eq!(s.printer_ip, "");
    assert!(s.paired);
    assert!(s.last_event.is_none());
    let mut log2: VecDeque<ConnectorEvent> = VecDeque::new();
    record_event(&mut log2, event(7));
    let s = status(&h, &live_config(), &log2).unwrap();
    assert_eq!(s.printer_ip, "192.168.1.100");
    assert_eq!(s.mode, "live");
    assert_eq!(s.last_event.unwrap().created_at, 7);
}

#[test]
fn any_listed_origin_is_accepted() {
    let mut cfg = default_config();
    cfg.allowed_origins = vec!["https://franchisetech.ro".to_string(), "http://localhost:3000".to_string()];
    cfg.pairing_token = "T".to_string();
    let h = headers_with(&[("origin", "http://localhost:3000"), ("x-connector-token", "T")]);
    assert_eq!(validate_auth(&h, &cfg), Ok(()));
    let h = headers_with(&[("origin", "https://franchisetech.ro/till"), ("x-connector-token", "T")]);
    assert_eq!(validate_auth(&h, &cfg), Ok(()));
    let h = headers_with(&[("origin", "http://localhost:3001"), ("x-connector-token", "T")]);
    assert_eq!(validate_auth(&h, &cfg), Err(ApiError::OriginRejected));
}

#[test]
fn diagnostics_refusal_plans_no_probe() {
    let clock = ConnectorClock::start();
    let h = headers_with(&[("origin", "http://localhost:3000")]);
    assert_eq!(diagnostics_start(&h, &live_config(), &clock).err(), Some(ApiError::MissingToken));
    let h = headers_with(&[("origin", "http://localhost:3000"), ("x-connector-token", "FT-testtoken123")]);
    let plan = diagnostics_start(&h, &live_config(), &clock).unwrap();
    assert_eq!(plan.probe_address.as_deref(), Some("192.168.1.100:9100"));
    let mut no_ip = live_config();
    no_ip.printer_ip = String::new();
    assert!(diagnostics_start(&h, &no_ip, &clock).unwrap().probe_address.is_none());
}

#[test]
fn simulate_refuses_unauthorised_requests() {
    let clock = ConnectorClock::start();
    let mut log: VecDeque<ConnectorEvent> = VecDeque::new();
    let h = headers_with(&[("origin", "http://localhost:3000"), ("x-connector-token", "FT-wrong")]);
    assert_eq!(simulate(&h, &live_config(), &clock, &mut log).err().unwrap(), ApiError::InvalidToken);
    assert!(log.is_empty());
}

#[test]
fn server_origins_add_local_development_origins_once() {
    let r = server_origins(&vec!["https://franchisetech.ro".to_string(), "http://localhost:3001".to_string()]);
    assert_eq!(r, vec!["https://franchisetech.ro", "http://localhost:3001", "http://localhost:3000"]);
}

#[test]
fn diagnostics_verdicts() {
    let cfg = live_config();
    let all_good = diagnostics_run(cfg.connector_run_mode, &cfg.printer_ip, true, true, true, Some(PortProbe::Open));
    assert_eq!(all_good.overall, Verdict::Passed);
    assert_eq!(all_good.checks.len(), 7);
    assert_eq!(all_good.checks[0].message, "Connector v0.3.0 running in live mode.");
    assert_eq!(all_good.checks[4].message, "Port 9100 open on 192.168.1.100.");
    let warn = diagnostics_run(ConnectorRunMode::Simulation, &cfg.printer_ip, true, true, true, Some(PortProbe::Open));
    assert_eq!(warn.overall, Verdict::Warning);
    assert_eq!(diagnostics_result(warn.overall), "diagnostic_warning");
    let refused = diagnostics_run(cfg.connector_run_mode, &cfg.printer_ip, true, false, true, Some(PortProbe::Refused));
    assert_eq!(refused.overall, Verdict::Failed);
    assert_eq!(refused.checks[4].message, "Port 9100 refused on 192.168.1.100.");
    let worst = refused.checks.iter().map(|c| c.result).max_by_key(|v| match v { Verdict::Passed => 0, Verdict::Warning => 1, Verdict::Failed => 2 }).unwrap();
    assert_eq!(worst, refused.overall);
    let mut log: VecDeque<ConnectorEvent> = VecDeque::new();
    log_diagnostics(&mut log, "req-7", &refused);
    assert_eq!(log[0].severity, "error");
    assert_eq!(log[0].message, "Diagnostics: failed");
    assert_eq!(log[0].details[1], DetailEntry { key: "checks".to_string(), value: DetailValue::Count(7) });
}

#[test]
fn desktop_decisions() {
    let mut cfg = default_config();
    assert!(matches!(test_open_plan(&cfg), TestOpenPlan::Skip { result: "simulation_only", .. }));
    cfg.connector_run_mode = ConnectorRunMode::Diagnostic;
    assert!(matches!(test_open_plan(&cfg), TestOpenPlan::Skip { result: "diagnostic_only", .. }));
    cfg.connector_run_mode = ConnectorRunMode::Live;
    assert!(matches!(test_open_plan(&cfg), TestOpenPlan::Skip { result: "printer_not_configured", .. }));
    assert!(matches!(connection_test_plan(&cfg), ConnectionTestPlan::Skip { result: "printer_not_configured", .. }));
    let candidate = PrinterCandidate { name: "EPSON".to_string(), ip: "10.0.0.9".to_string(), port: 9101, status: "online".to_string() };
    cfg.drawer_kick_command = "00".to_string();
    select_printer(&mut cfg, &candidate);
    assert_eq!(cfg.printer_ip, "10.0.0.9");
    assert_eq!(cfg.printer_port, 9101);
    assert_eq!(cfg.drawer_kick_command, "1B700019FA");
    match test_open_plan(&cfg) {
        TestOpenPlan::Send { ip, port } => {
            assert_eq!(ip, "10.0.0.9");
            assert_eq!(port, 9101);
        }
        _ => panic!("expected a send"),
    }
    assert_eq!(test_open_result(true), ("command_sent", "open command sent"));
    assert_eq!(connection_test_result(false).0, "unreachable");
    cfg.pairing_token = "FT-secret".to_string();
    let export = export_config(&cfg);
    assert!(export.pairing_token_configured);
    assert_eq!(export.printer_ip, "10.0.0.9");
    let lines: Vec<String> = (0..5).map(|i| format!("line {}", i)).collect();
    assert_eq!(last_lines(lines.clone(), 2), vec!["line 3", "line 4"]);
    assert_eq!(last_lines(lines, 50).len(), 5);
    assert!(discover_network_printers().is_empty());
}
