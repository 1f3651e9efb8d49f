use vstd::prelude::*;
use std::collections::VecDeque;
use axum::http::HeaderMap;
use crate::auth::{auth_verdict, validate_auth};
use crate::clock::{elapsed_since, rate_limit_at, rate_limited_at, rate_verdict, ConnectorClock};
use crate::config::{configured, ConnectorConfig, ConnectorRunMode};
use crate::errors::ApiError;
use crate::events::{
    details_view, generated_id_text, log_event, logged_for_request, logged_fresh, text_detail,
    ConnectorEvent, DetailEntry, DetailFact,
};
use crate::headers::{claimed_origin, header_fields, presented_token};
use crate::random::generate_request_id;
use crate::text::{char_to_string, decimal, decimal_string, upper_snake, upper_snake_char};

verus! {

/// The body of a drawer command.
pub struct DrawerRequest {
    pub reason: Option<String>,
}

/// What happens to a drawer command once it has been checked.
pub enum DrawerOutcome {
    /// Refused with this error; nothing is sent to the printer.
    Refused(ApiError),
    /// Send the drawer kick to the printer at `ip`.
    Kick { ip: String, request_id: String, reason: String },
}

/// How the attempt to send the drawer kick to the printer ended.
pub enum KickOutcome {
    /// The TCP connection did not complete in time.
    Timeout,
    /// The printer refused the TCP connection.
    ConnectionRefused(String),
    /// The printer could not be reached for another reason.
    Unreachable(String),
    /// Connected, but writing the command failed.
    WriteFailed(String),
    /// The command was written.
    Sent,
}

/// The answer to a drawer command that reached the printer stage.
pub struct KickReply {
    pub status: u16,
    pub ok: bool,
    pub result: String,
    pub error_code: Option<String>,
    pub message: &'static str,
    pub suggestion: Option<&'static str>,
    pub request_id: String,
}

/// The `result` field of the answer once the printer stage is reached.
pub open spec fn kick_result(o: KickOutcome) -> Seq<char> {
    match o {
        KickOutcome::Timeout => "printer_connection_timeout"@,
        KickOutcome::ConnectionRefused(_) => "printer_connection_refused"@,
        KickOutcome::Unreachable(_) => "printer_unreachable"@,
        KickOutcome::WriteFailed(_) => "printer_write_failed"@,
        KickOutcome::Sent => "command_sent"@,
    }
}

/// The HTTP status of the answer once the printer stage is reached.
pub open spec fn kick_status(o: KickOutcome) -> u16 {
    match o {
        KickOutcome::Timeout => 503,
        KickOutcome::ConnectionRefused(_) => 503,
        KickOutcome::Unreachable(_) => 503,
        KickOutcome::WriteFailed(_) => 500,
        KickOutcome::Sent => 200,
    }
}

/// The message of the answer once the printer stage is reached.
pub open spec fn kick_message(o: KickOutcome) -> Seq<char> {
    match o {
        KickOutcome::Timeout => "Printer connection timed out."@,
        KickOutcome::ConnectionRefused(_) => "Printer refused TCP connection on port 9100."@,
        KickOutcome::Unreachable(_) => "Printer is not reachable."@,
        KickOutcome::WriteFailed(_) => "Connected but failed to write ESC/POS bytes."@,
        KickOutcome::Sent => "Drawer kick command sent."@,
    }
}

/// The suggestion of the answer once the printer stage is reached, if any.
pub open spec fn kick_suggestion(o: KickOutcome) -> Option<Seq<char>> {
    match o {
        KickOutcome::Timeout => Some("Check the printer IP and that port 9100 is reachable."@),
        KickOutcome::ConnectionRefused(_) => Some(
            "Ensure printer is powered on and port 9100 is open."@,
        ),
        KickOutcome::Unreachable(_) => Some("Ensure printer is powered on and port 9100 is open."@),
        KickOutcome::WriteFailed(_) => Some("Check printer cable and ESC/POS support."@),
        KickOutcome::Sent => None,
    }
}

/// The event recorded once the printer stage is reached: type, severity, message.
pub open spec fn kick_event(o: KickOutcome) -> (Seq<char>, Seq<char>, Seq<char>) {
    match o {
        KickOutcome::Timeout => (
            "drawer_connection_timeout"@,
            "error"@,
            "TCP connection to printer timed out"@,
        ),
        KickOutcome::ConnectionRefused(_) => (
            "drawer_connection_failed"@,
            "error"@,
            "Printer refused TCP connection on port 9100."@,
        ),
        KickOutcome::Unreachable(_) => (
            "drawer_connection_failed"@,
            "error"@,
            "Printer is not reachable."@,
        ),
        KickOutcome::WriteFailed(_) => (
            "drawer_write_failed"@,
            "error"@,
            "Failed to write ESC/POS bytes"@,
        ),
        KickOutcome::Sent => ("drawer_command_sent"@, "success"@, "ESC/POS drawer kick sent"@),
    }
}

/// The details recorded once the printer stage is reached: the printer, the
/// error where there was one, and the reason.
pub open spec fn kick_details(o: KickOutcome, ip: Seq<char>, reason: Seq<char>) -> Seq<
    (Seq<char>, DetailFact),
> {
    match o {
        KickOutcome::ConnectionRefused(e) => seq![
            ("printerIp"@, DetailFact::Text(ip)),
            ("error"@, DetailFact::Text(e@)),
            ("reason"@, DetailFact::Text(reason)),
        ],
        KickOutcome::Unreachable(e) => seq![
            ("printerIp"@, DetailFact::Text(ip)),
            ("error"@, DetailFact::Text(e@)),
            ("reason"@, DetailFact::Text(reason)),
        ],
        KickOutcome::WriteFailed(e) => seq![
            ("printerIp"@, DetailFact::Text(ip)),
            ("error"@, DetailFact::Text(e@)),
            ("reason"@, DetailFact::Text(reason)),
        ],
        _ => seq![("printerIp"@, DetailFact::Text(ip)), ("reason"@, DetailFact::Text(reason))],
    }
}

/// The reason recorded for a drawer command: the one given, else "sale".
pub open spec fn reason_of(body: Option<DrawerRequest>) -> Seq<char> {
    match body {
        Some(b) => match b.reason {
            Some(r) => r@,
            None => "sale"@,
        },
        None => "sale"@,
    }
}

/// The ESC/POS drawer kick: pulse pin 2 for 25 ms on, 250 ms off.
pub open spec fn kick_bytes() -> Seq<u8> {
    seq![0x1Bu8, 0x70u8, 0x00u8, 0x19u8, 0xFAu8]
}

/// The TCP address of a printer.
pub open spec fn address_text(ip: Seq<char>, port: u16) -> Seq<char> {
    ip + ":"@ + decimal(port as nat)
}

/// The reason recorded for a drawer command: the one given, else "sale".
pub fn drawer_reason(body: Option<DrawerRequest>) -> (r: String)
    ensures
        r@ == reason_of(body),
{
    match body {
        Some(b) => match b.reason {
            Some(r) => r,
            None => String::from_str("sale"),
        },
        None => String::from_str("sale"),
    }
}

/// The bytes that open the cash drawer.
pub fn drawer_kick_bytes() -> (b: Vec<u8>)
    ensures
        b@ == kick_bytes(),
{
    let mut b: Vec<u8> = Vec::new();
    b.push(0x1B);
    b.push(0x70);
    b.push(0x00);
    b.push(0x19);
    b.push(0xFA);
    assert(b@ =~= kick_bytes());
    b
}

/// The TCP address `ip:port` of a printer.
pub fn printer_address(ip: &str, port: u16) -> (r: String)
    ensures
        r@ == address_text(ip@, port),
{
    let mut r = String::from_str(ip);
    r.append(":");
    let p = decimal_string(port as u64);
    r.append(p.as_str());
    r
}

/// `s` as it appears in an error code, for an ASCII `s`.
pub fn upper_snake_string(s: &str) -> (r: String)
    requires
        s.is_ascii(),
    ensures
        r@ == upper_snake(s@),
{
    let n = s.unicode_len();
    let mut out = String::new();
    let mut i: usize = 0;
    while i < n
        invariant
            n == s@.len(),
            i <= n,
            out@ =~= upper_snake(s@.subrange(0, i as int)),
        decreases n - i,
    {
        let c = s.get_char(i);
        let u = c as u32;
        let mapped: char = if 97 <= u && u <= 122 {
            let b = (u - 32) as u8;
            b as char
        } else if c == '-' {
            '_'
        } else {
            c
        };
        assert(mapped == upper_snake_char(c));
        let piece = char_to_string(mapped);
        out.append(piece.as_str());
        assert(upper_snake(s@.subrange(0, i + 1)) =~= upper_snake(s@.subrange(0, i as int)).push(
            upper_snake_char(s@[i as int]),
        ));
        i = i + 1;
    }
    assert(s@.subrange(0, n as int) =~= s@);
    out
}


/// Checks a drawer command and decides what happens to it: refused when the
/// request is not authorised; in simulation or diagnostic mode, logged and
/// answered without touching the printer; in live mode, rate limited, then
/// refused and logged when no printer address is set, else sent.
pub fn open_drawer(
    headers: &HeaderMap,
    config: &ConnectorConfig,
    body: Option<DrawerRequest>,
    last_open: &mut Option<u128>,
    clock: &ConnectorClock,
    log: &mut VecDeque<ConnectorEvent>,
) -> (r: DrawerOutcome)
    ensures
        ({
            let fields = header_fields(*headers);
            let verdict = auth_verdict(*config, claimed_origin(fields), presented_token(fields));
            let reason = seq![("reason"@, DetailFact::Text(reason_of(body)))];
            &&& r is Kick ==> {
                &&& verdict is Ok
                &&& config.connector_run_mode == ConnectorRunMode::Live
                &&& configured(*config)
            }
            &&& verdict is Err ==> {
                &&& r == DrawerOutcome::Refused(verdict->Err_0)
                &&& *final(last_open) == *old(last_open)
                &&& final(log)@ == old(log)@
            }
            &&& verdict is Ok && config.connector_run_mode == ConnectorRunMode::Simulation ==> {
                &&& r == DrawerOutcome::Refused(ApiError::SimulationOnly)
                &&& *final(last_open) == *old(last_open)
                &&& logged_fresh(
                    old(log)@,
                    final(log)@,
                    "drawer_simulation_only"@,
                    "info"@,
                    "Simulation mode — no bytes sent"@,
                    reason,
                )
            }
            &&& verdict is Ok && config.connector_run_mode == ConnectorRunMode::Diagnostic ==> {
                &&& r == DrawerOutcome::Refused(ApiError::DiagnosticOnly)
                &&& *final(last_open) == *old(last_open)
                &&& logged_fresh(
                    old(log)@,
                    final(log)@,
                    "drawer_diagnostic_only"@,
                    "info"@,
                    "Diagnostic mode — no bytes sent"@,
                    reason,
                )
            }
            &&& verdict is Ok && config.connector_run_mode == ConnectorRunMode::Live ==> exists|now: u128|
                {
                    let rate = rate_verdict(#[trigger] elapsed_since(now, *old(last_open)));
                    &&& rate_limited_at(now, *old(last_open), *final(last_open), rate)
                    &&& rate is Err ==> {
                        &&& r == DrawerOutcome::Refused(ApiError::RateLimited)
                        &&& final(log)@ == old(log)@
                    }
                    &&& rate is Ok && !configured(*config) ==> {
                        &&& r == DrawerOutcome::Refused(ApiError::PrinterIpMissing)
                        &&& logged_fresh(
                            old(log)@,
                            final(log)@,
                            "drawer_printer_ip_missing"@,
                            "error"@,
                            "Printer IP not configured"@,
                            reason,
                        )
                    }
                    &&& rate is Ok && configured(*config) ==> {
                        &&& r matches DrawerOutcome::Kick { ip, request_id, reason: why } && {
                            &&& ip@ == config.printer_ip@
                            &&& why@ == reason_of(body)
                            &&& generated_id_text(request_id@)
                        }
                        &&& final(log)@ == old(log)@
                    }
                }
        }),
{
    if let Err(e) = validate_auth(headers, config) {
        return DrawerOutcome::Refused(e);
    }
    let ghost why = reason_of(body);
    let reason = drawer_reason(body);
    let req_id = generate_request_id();
    match config.connector_run_mode {
        ConnectorRunMode::Simulation => {
            let details = reason_details(reason.as_str());
            log_event(
                log,
                "drawer_simulation_only",
                "info",
                "Simulation mode — no bytes sent",
                req_id.as_str(),
                details,
            );
            return DrawerOutcome::Refused(ApiError::SimulationOnly);
        },
        ConnectorRunMode::Diagnostic => {
            let details = reason_details(reason.as_str());
            log_event(
                log,
                "drawer_diagnostic_only",
                "info",
                "Diagnostic mode — no bytes sent",
                req_id.as_str(),
                details,
            );
            return DrawerOutcome::Refused(ApiError::DiagnosticOnly);
        },
        ConnectorRunMode::Live => {},
    }
    let now = clock.now_nanos();
    if let Err(e) = rate_limit_at(last_open, now) {
        return DrawerOutcome::Refused(e);
    }
    if config.printer_ip.as_str().is_empty() {
        let details = reason_details(reason.as_str());
        log_event(
            log,
            "drawer_printer_ip_missing",
            "error",
            "Printer IP not configured",
            req_id.as_str(),
            details,
        );
        return DrawerOutcome::Refused(ApiError::PrinterIpMissing);
    }
    DrawerOutcome::Kick { ip: config.printer_ip.clone(), request_id: req_id, reason }
}

/// Answers a drawer command that reached the printer, given how sending the
/// kick ended, and logs that ending under the command's request id.
pub fn kick_reply(
    outcome: KickOutcome,
    ip: &str,
    request_id: &str,
    reason: &str,
    log: &mut VecDeque<ConnectorEvent>,
) -> (r: KickReply)
    ensures
        r.status == kick_status(outcome),
        r.ok == (outcome is Sent),
        r.result@ == kick_result(outcome),
        outcome is Sent ==> r.error_code is None,
        !(outcome is Sent) ==> (r.error_code matches Some(c) && c@ == upper_snake(kick_result(outcome))),
        r.message@ == kick_message(outcome),
        kick_suggestion(outcome) is None <==> r.suggestion is None,
        r.suggestion matches Some(s) ==> kick_suggestion(outcome) == Some(s@),
        r.request_id@ == request_id@,
        logged_for_request(
            old(log)@,
            final(log)@,
            kick_event(outcome).0,
            kick_event(outcome).1,
            kick_event(outcome).2,
            request_id@,
            kick_details(outcome, ip@, reason@),
        ),
{
    let ghost o = outcome;
    match outcome {
        KickOutcome::Timeout => {
            let mut d: Vec<DetailEntry> = Vec::new();
            d.push(text_detail("printerIp", ip));
            d.push(text_detail("reason", reason));
            assert(details_view(d@) =~= kick_details(o, ip@, reason@));
            log_event(
                log,
                "drawer_connection_timeout",
                "error",
                "TCP connection to printer timed out",
                request_id,
                d,
            );
            proof {
                reveal_strlit("printer_connection_timeout");
                reveal_strlit("PRINTER_CONNECTION_TIMEOUT");
                assert("PRINTER_CONNECTION_TIMEOUT"@ =~= upper_snake(kick_result(o)));
            }
            KickReply {
                status: 503,
                ok: false,
                result: String::from_str("printer_connection_timeout"),
                error_code: Some(String::from_str("PRINTER_CONNECTION_TIMEOUT")),
                message: "Printer connection timed out.",
                suggestion: Some("Check the printer IP and that port 9100 is reachable."),
                request_id: String::from_str(request_id),
            }
        },
        KickOutcome::ConnectionRefused(e) => {
            proof {
                reveal_strlit("printer_connection_refused");
            }
            failed_connection_reply(
                "printer_connection_refused",
                "Printer refused TCP connection on port 9100.",
                e,
                ip,
                request_id,
                reason,
                log,
            )
        },
        KickOutcome::Unreachable(e) => {
            proof {
                reveal_strlit("printer_unreachable");
            }
            failed_connection_reply(
                "printer_unreachable",
                "Printer is not reachable.",
                e,
                ip,
                request_id,
                reason,
                log,
            )
        },
        KickOutcome::WriteFailed(e) => {
            let mut d: Vec<DetailEntry> = Vec::new();
            d.push(text_detail("printerIp", ip));
            d.push(text_detail("error", e.as_str()));
            d.push(text_detail("reason", reason));
            assert(details_view(d@) =~= kick_details(o, ip@, reason@));
            log_event(
                log,
                "drawer_write_failed",
                "error",
                "Failed to write ESC/POS bytes",
                request_id,
                d,
            );
            proof {
                reveal_strlit("printer_write_failed");
                reveal_strlit("PRINTER_WRITE_FAILED");
                assert("PRINTER_WRITE_FAILED"@ =~= upper_snake(kick_result(o)));
            }
            KickReply {
                status: 500,
                ok: false,
                result: String::from_str("printer_write_failed"),
                error_code: Some(String::from_str("PRINTER_WRITE_FAILED")),
                message: "Connected but failed to write ESC/POS bytes.",
                suggestion: Some("Check printer cable and ESC/POS support."),
                request_id: String::from_str(request_id),
            }
        },
        KickOutcome::Sent => {
            let mut d: Vec<DetailEntry> = Vec::new();
            d.push(text_detail("printerIp", ip));
            d.push(text_detail("reason", reason));
            assert(details_view(d@) =~= kick_details(o, ip@, reason@));
            log_event(log, "drawer_command_sent", "success", "ESC/POS drawer kick sent", request_id, d);
            KickReply {
                status: 200,
                ok: true,
                result: String::from_str("command_sent"),
                error_code: None,
                message: "Drawer kick command sent.",
                suggestion: None,
                request_id: String::from_str(request_id),
            }
        },
    }
}

/// The answer when the TCP connection to the printer failed; the error code is
/// the result name in upper case.
fn failed_connection_reply(
    rc: &'static str,
    msg: &'static str,
    error: String,
    ip: &str,
    request_id: &str,
    reason: &str,
    log: &mut VecDeque<ConnectorEvent>,
) -> (r: KickReply)
    requires
        rc.is_ascii(),
    ensures
        r.status == 503,
        !r.ok,
        r.result@ == rc@,
        r.error_code matches Some(c) && c@ == upper_snake(rc@),
        r.message@ == msg@,
        r.suggestion matches Some(s) && s@ == "Ensure printer is powered on and port 9100 is open."@,
        r.request_id@ == request_id@,
        logged_for_request(
            old(log)@,
            final(log)@,
            "drawer_connection_failed"@,
            "error"@,
            msg@,
            request_id@,
            seq![
                ("printerIp"@, DetailFact::Text(ip@)),
                ("error"@, DetailFact::Text(error@)),
                ("reason"@, DetailFact::Text(reason@)),
            ],
        ),
{
    let mut d: Vec<DetailEntry> = Vec::new();
    d.push(text_detail("printerIp", ip));
    d.push(text_detail("error", error.as_str()));
    d.push(text_detail("reason", reason));
    assert(details_view(d@) =~= seq![
        ("printerIp"@, DetailFact::Text(ip@)),
        ("error"@, DetailFact::Text(error@)),
        ("reason"@, DetailFact::Text(reason@)),
    ]);
    log_event(log, "drawer_connection_failed", "error", msg, request_id, d);
    let code = upper_snake_string(rc);
    KickReply {
        status: 503,
        ok: false,
        result: String::from_str(rc),
        error_code: Some(code),
        message: msg,
        suggestion: Some("Ensure printer is powered on and port 9100 is open."),
        request_id: String::from_str(request_id),
    }
}

/// The details recorded with a drawer command: its reason.
fn reason_details(reason: &str) -> (d: Vec<DetailEntry>)
    ensures
        details_view(d@) == seq![("reason"@, DetailFact::Text(reason@))],
{
    let mut d: Vec<DetailEntry> = Vec::new();
    d.push(text_detail("reason", reason));
    assert(details_view(d@) =~= seq![("reason"@, DetailFact::Text(reason@))]);
    d
}

} // verus!
