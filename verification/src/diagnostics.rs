use vstd::prelude::*;
use std::collections::VecDeque;
use axum::http::HeaderMap;
use crate::auth::{auth_verdict, validate_auth};
use crate::clock::ConnectorClock;
use crate::config::{configured, mode_name, paired, ConnectorConfig, ConnectorRunMode, VERSION};
use crate::drawer::{address_text, printer_address};
use crate::errors::ApiError;
use crate::headers::{claimed_origin, header_fields, presented_token};
use crate::random::generate_request_id;
use crate::status::{millis_between, millis_from};
use crate::events::{
    count_detail, details_view, generated_id_text, log_event, logged_for_request, text_detail,
    ConnectorEvent, DetailEntry, DetailFact,
};

verus! {

/// The outcome of one diagnostic check, and of the run as a whole.
#[derive(Clone, Copy, Debug, PartialEq, Eq, Structural)]
pub enum Verdict {
    Passed,
    Warning,
    Failed,
}

/// How the probe of the printer's raw TCP port ended.
#[derive(Clone, Copy, Debug, PartialEq, Eq, Structural)]
pub enum PortProbe {
    Timeout,
    Refused,
    Unreachable,
    Open,
}

/// One diagnostic check.
#[derive(Debug)]
pub struct DiagCheck {
    pub name: &'static str,
    pub result: Verdict,
    pub message: String,
    pub suggestion: Option<&'static str>,
}

/// All diagnostic checks, in order, and the verdict on the run.
#[derive(Debug)]
pub struct DiagnosticsReport {
    pub checks: Vec<DiagCheck>,
    pub overall: Verdict,
}

/// What a check says: name, verdict, message and suggestion.
pub type CheckFacts = (Seq<char>, Verdict, Seq<char>, Option<Seq<char>>);

impl View for DiagCheck {
    type V = CheckFacts;

    open spec fn view(&self) -> CheckFacts {
        (
            self.name@,
            self.result,
            self.message@,
            match self.suggestion {
                Some(s) => Some(s@),
                None => None,
            },
        )
    }
}

/// The name of each verdict.
pub open spec fn verdict_name(v: Verdict) -> Seq<char> {
    match v {
        Verdict::Passed => "passed"@,
        Verdict::Warning => "warning"@,
        Verdict::Failed => "failed"@,
    }
}

/// How bad a verdict is.
pub open spec fn rank(v: Verdict) -> int {
    match v {
        Verdict::Passed => 0,
        Verdict::Warning => 1,
        Verdict::Failed => 2,
    }
}

/// The worse of two verdicts.
pub open spec fn worse(a: Verdict, b: Verdict) -> Verdict {
    if rank(a) >= rank(b) {
        a
    } else {
        b
    }
}

/// The worst verdict among checks; passed when there are none.
pub open spec fn worst_verdict(checks: Seq<CheckFacts>) -> Verdict
    decreases checks.len(),
{
    if checks.len() == 0 {
        Verdict::Passed
    } else {
        worse(worst_verdict(checks.drop_last()), checks.last().1)
    }
}

/// The check that the connector runs.
pub open spec fn alive_check(mode: ConnectorRunMode) -> CheckFacts {
    (
        "connector_alive"@,
        Verdict::Passed,
        "Connector v"@ + VERSION@ + " running in "@ + mode_name(mode) + " mode."@,
        None,
    )
}

/// The check that a pairing token is stored.
pub open spec fn paired_check(paired: bool) -> CheckFacts {
    if paired {
        ("paired"@, Verdict::Passed, "Terminal is paired."@, None)
    } else {
        (
            "paired"@,
            Verdict::Failed,
            "No pairing token configured."@,
            Some("Complete the pairing step in the connector wizard."@),
        )
    }
}

/// The check that the setup wizard has finished.
pub open spec fn setup_check(setup_complete: bool) -> CheckFacts {
    if setup_complete {
        ("setup_complete"@, Verdict::Passed, "Setup wizard completed."@, None)
    } else {
        (
            "setup_complete"@,
            Verdict::Warning,
            "Setup not complete."@,
            Some("Finish the Setup wizard."@),
        )
    }
}

/// The check that a printer address is set.
pub open spec fn ip_check(ip: Seq<char>) -> CheckFacts {
    if ip.len() > 0 {
        ("printer_ip_configured"@, Verdict::Passed, "Printer IP: "@ + ip, None)
    } else {
        (
            "printer_ip_configured"@,
            Verdict::Failed,
            "Printer IP not configured."@,
            Some("Enter printer IP in Setup tab."@),
        )
    }
}

/// The check that the printer's raw TCP port answers.
pub open spec fn port_check(ip: Seq<char>, probe: PortProbe) -> CheckFacts {
    match probe {
        PortProbe::Timeout => (
            "printer_port_9100"@,
            Verdict::Failed,
            "TCP to "@ + ip + ":9100 timed out."@,
            Some("Check firewall / ensure printer is on."@),
        ),
        PortProbe::Refused => (
            "printer_port_9100"@,
            Verdict::Failed,
            "Port 9100 refused on "@ + ip + "."@,
            Some("ESC/POS network printing may not be enabled."@),
        ),
        PortProbe::Unreachable => (
            "printer_port_9100"@,
            Verdict::Failed,
            "Cannot reach "@ + ip + " on port 9100."@,
            Some("Check IP and that printer is on same LAN."@),
        ),
        PortProbe::Open => (
            "printer_port_9100"@,
            Verdict::Passed,
            "Port 9100 open on "@ + ip + "."@,
            None,
        ),
    }
}

/// The check that the drawer hardware has been verified.
pub open spec fn hardware_check(hardware_verified: bool) -> CheckFacts {
    if hardware_verified {
        ("hardware_verified"@, Verdict::Passed, "Cash drawer hardware verified."@, None)
    } else {
        (
            "hardware_verified"@,
            Verdict::Warning,
            "Hardware not verified."@,
            Some("Run live test in Setup to verify hardware."@),
        )
    }
}

/// The check that the connector sends real commands.
pub open spec fn live_check(mode: ConnectorRunMode) -> CheckFacts {
    match mode {
        ConnectorRunMode::Live => (
            "live_ready"@,
            Verdict::Passed,
            "Connector in Live mode — ready."@,
            None,
        ),
        ConnectorRunMode::Simulation => (
            "live_ready"@,
            Verdict::Warning,
            "Simulation mode — no commands sent to printer."@,
            Some("Switch to Live mode in Advanced when ready."@),
        ),
        ConnectorRunMode::Diagnostic => (
            "live_ready"@,
            Verdict::Warning,
            "Diagnostic mode — no commands sent to printer."@,
            Some("Switch to Live mode in Advanced when ready."@),
        ),
    }
}

/// Every check of a diagnostics run, in order; the port is probed only when a
/// printer address is set.
pub open spec fn diagnostic_checks(
    mode: ConnectorRunMode,
    ip: Seq<char>,
    paired: bool,
    setup_complete: bool,
    hardware_verified: bool,
    probe: Option<PortProbe>,
) -> Seq<CheckFacts> {
    let head = seq![alive_check(mode), paired_check(paired), setup_check(setup_complete), ip_check(ip)];
    let port = match probe {
        Some(p) => seq![port_check(ip, p)],
        None => Seq::empty(),
    };
    head + port + seq![hardware_check(hardware_verified), live_check(mode)]
}

/// The verdict on a diagnostics run: failed when unpaired, without a printer
/// address or with the printer port not open; else a warning when setup is
/// unfinished, the hardware unverified or the mode not live; else passed.
pub open spec fn overall_verdict(
    mode: ConnectorRunMode,
    ip: Seq<char>,
    paired: bool,
    setup_complete: bool,
    hardware_verified: bool,
    probe: Option<PortProbe>,
) -> Verdict {
    if !paired || ip.len() == 0 || probe != Some(PortProbe::Open) {
        Verdict::Failed
    } else if !setup_complete || !hardware_verified || mode != ConnectorRunMode::Live {
        Verdict::Warning
    } else {
        Verdict::Passed
    }
}

/// The severity of the event that records a run.
pub open spec fn verdict_severity(v: Verdict) -> Seq<char> {
    match v {
        Verdict::Passed => "success"@,
        Verdict::Warning => "warning"@,
        Verdict::Failed => "error"@,
    }
}

impl Verdict {
    pub fn as_str(&self) -> (s: &'static str)
        ensures
            s@ == verdict_name(*self),
    {
        match self {
            Verdict::Passed => "passed",
            Verdict::Warning => "warning",
            Verdict::Failed => "failed",
        }
    }

    /// The severity of the event that records a run with this verdict.
    pub fn severity(&self) -> (s: &'static str)
        ensures
            s@ == verdict_severity(*self),
    {
        match self {
            Verdict::Passed => "success",
            Verdict::Warning => "warning",
            Verdict::Failed => "error",
        }
    }
}


/// The text `a` then `b`.
fn join2(a: &str, b: &str) -> (r: String)
    ensures
        r@ == a@ + b@,
{
    let mut r = String::from_str(a);
    r.append(b);
    r
}

/// The text `a` then `b` then `c`.
fn join3(a: &str, b: &str, c: &str) -> (r: String)
    ensures
        r@ == a@ + b@ + c@,
{
    let mut r = String::from_str(a);
    r.append(b);
    r.append(c);
    r
}

fn check(
    name: &'static str,
    result: Verdict,
    message: String,
    suggestion: Option<&'static str>,
) -> (c: DiagCheck)
    ensures
        c.name == name,
        c.result == result,
        c.message == message,
        c.suggestion == suggestion,
{
    DiagCheck { name, result, message, suggestion }
}

fn alive(mode: ConnectorRunMode) -> (c: DiagCheck)
    ensures
        c@ == alive_check(mode),
{
    let mut m = String::from_str("Connector v");
    m.append(VERSION);
    m.append(" running in ");
    m.append(mode.as_str());
    m.append(" mode.");
    check("connector_alive", Verdict::Passed, m, None)
}

fn paired_status(paired: bool) -> (c: DiagCheck)
    ensures
        c@ == paired_check(paired),
{
    if paired {
        check("paired", Verdict::Passed, String::from_str("Terminal is paired."), None)
    } else {
        check(
            "paired",
            Verdict::Failed,
            String::from_str("No pairing token configured."),
            Some("Complete the pairing step in the connector wizard."),
        )
    }
}

fn setup_status(setup_complete: bool) -> (c: DiagCheck)
    ensures
        c@ == setup_check(setup_complete),
{
    if setup_complete {
        check("setup_complete", Verdict::Passed, String::from_str("Setup wizard completed."), None)
    } else {
        check(
            "setup_complete",
            Verdict::Warning,
            String::from_str("Setup not complete."),
            Some("Finish the Setup wizard."),
        )
    }
}

fn ip_status(ip: &str) -> (c: DiagCheck)
    ensures
        c@ == ip_check(ip@),
{
    if !ip.is_empty() {
        check("printer_ip_configured", Verdict::Passed, join2("Printer IP: ", ip), None)
    } else {
        check(
            "printer_ip_configured",
            Verdict::Failed,
            String::from_str("Printer IP not configured."),
            Some("Enter printer IP in Setup tab."),
        )
    }
}

fn port_status(ip: &str, probe: PortProbe) -> (c: DiagCheck)
    ensures
        c@ == port_check(ip@, probe),
{
    match probe {
        PortProbe::Timeout => check(
            "printer_port_9100",
            Verdict::Failed,
            join3("TCP to ", ip, ":9100 timed out."),
            Some("Check firewall / ensure printer is on."),
        ),
        PortProbe::Refused => check(
            "printer_port_9100",
            Verdict::Failed,
            join3("Port 9100 refused on ", ip, "."),
            Some("ESC/POS network printing may not be enabled."),
        ),
        PortProbe::Unreachable => check(
            "printer_port_9100",
            Verdict::Failed,
            join3("Cannot reach ", ip, " on port 9100."),
            Some("Check IP and that printer is on same LAN."),
        ),
        PortProbe::Open => check(
            "printer_port_9100",
            Verdict::Passed,
            join3("Port 9100 open on ", ip, "."),
            None,
        ),
    }
}

fn hardware_status(hardware_verified: bool) -> (c: DiagCheck)
    ensures
        c@ == hardware_check(hardware_verified),
{
    if hardware_verified {
        check(
            "hardware_verified",
            Verdict::Passed,
            String::from_str("Cash drawer hardware verified."),
            None,
        )
    } else {
        check(
            "hardware_verified",
            Verdict::Warning,
            String::from_str("Hardware not verified."),
            Some("Run live test in Setup to verify hardware."),
        )
    }
}

fn live_status(mode: ConnectorRunMode) -> (c: DiagCheck)
    ensures
        c@ == live_check(mode),
{
    match mode {
        ConnectorRunMode::Live => check(
            "live_ready",
            Verdict::Passed,
            String::from_str("Connector in Live mode — ready."),
            None,
        ),
        ConnectorRunMode::Simulation => check(
            "live_ready",
            Verdict::Warning,
            String::from_str("Simulation mode — no commands sent to printer."),
            Some("Switch to Live mode in Advanced when ready."),
        ),
        ConnectorRunMode::Diagnostic => check(
            "live_ready",
            Verdict::Warning,
            String::from_str("Diagnostic mode — no commands sent to printer."),
            Some("Switch to Live mode in Advanced when ready."),
        ),
    }
}

/// Whether a diagnostics run probes the printer port: only when an address is set.
pub fn needs_port_probe(printer_ip: &str) -> (b: bool)
    ensures
        b == (printer_ip@.len() > 0),
{
    !printer_ip.is_empty()
}

/// Runs the diagnostic checks on the connector's state and, where a printer
/// address is set, on how the probe of its port ended.
pub fn diagnostics_run(
    mode: ConnectorRunMode,
    printer_ip: &str,
    paired: bool,
    setup_complete: bool,
    hardware_verified: bool,
    probe: Option<PortProbe>,
) -> (r: DiagnosticsReport)
    requires
        probe is Some <==> printer_ip@.len() > 0,
    ensures
        r.checks@.map_values(|c: DiagCheck| c@) == diagnostic_checks(
            mode,
            printer_ip@,
            paired,
            setup_complete,
            hardware_verified,
            probe,
        ),
        r.overall == overall_verdict(
            mode,
            printer_ip@,
            paired,
            setup_complete,
            hardware_verified,
            probe,
        ),
        exists|i: int|
            #![trigger r.checks@[i]]
            0 <= i < r.checks@.len() && r.checks@[i].name@ == "hardware_verified"@ && r.checks@[i].result
                == (if hardware_verified {
                Verdict::Passed
            } else {
                Verdict::Warning
            }),
        !paired || printer_ip@.len() == 0 || probe != Some(PortProbe::Open) ==> r.overall
            == Verdict::Failed,
        paired && printer_ip@.len() > 0 && probe == Some(PortProbe::Open) ==> (r.overall
            == Verdict::Passed <==> (setup_complete && hardware_verified && mode
            == ConnectorRunMode::Live)),
        paired && printer_ip@.len() > 0 && probe == Some(PortProbe::Open) && (!setup_complete
            || !hardware_verified || mode != ConnectorRunMode::Live) ==> r.overall
            == Verdict::Warning,
{
    let mut checks: Vec<DiagCheck> = Vec::new();
    let mut overall = Verdict::Passed;
    checks.push(alive(mode));
    checks.push(paired_status(paired));
    if !paired {
        overall = Verdict::Failed;
    }
    checks.push(setup_status(setup_complete));
    if !setup_complete && overall == Verdict::Passed {
        overall = Verdict::Warning;
    }
    checks.push(ip_status(printer_ip));
    let has_ip = !printer_ip.is_empty();
    if !has_ip {
        overall = Verdict::Failed;
    }
    if let Some(p) = probe {
        checks.push(port_status(printer_ip, p));
        if p != PortProbe::Open {
            overall = Verdict::Failed;
        }
    }
    checks.push(hardware_status(hardware_verified));
    if !hardware_verified && overall == Verdict::Passed {
        overall = Verdict::Warning;
    }
    checks.push(live_status(mode));
    if mode != ConnectorRunMode::Live && overall == Verdict::Passed {
        overall = Verdict::Warning;
    }
    assert(checks@.map_values(|c: DiagCheck| c@) =~= diagnostic_checks(
        mode,
        printer_ip@,
        paired,
        setup_complete,
        hardware_verified,
        probe,
    ));
    let ghost k: int = if probe is Some { 5 } else { 4 };
    proof {
        let all = diagnostic_checks(mode, printer_ip@, paired, setup_complete, hardware_verified, probe);
        assert(checks@.map_values(|c: DiagCheck| c@)[k] == checks@[k]@);
        assert(all[k] == hardware_check(hardware_verified));
        assert(checks@[k]@ == hardware_check(hardware_verified));
        assert(checks@[k].name@ == "hardware_verified"@);
        assert(checks@[k].result == (if hardware_verified {
            Verdict::Passed
        } else {
            Verdict::Warning
        }));
        assert(0 <= k < checks@.len());
    }
    let report = DiagnosticsReport { checks, overall };
    assert(report.checks@[k].name@ == "hardware_verified"@);
    report
}

/// The `result` field of the answer to a diagnostics run.
pub fn diagnostics_result(overall: Verdict) -> (r: String)
    ensures
        r@ == "diagnostic_"@ + verdict_name(overall),
{
    join2("diagnostic_", overall.as_str())
}

/// Logs a diagnostics run under its request id: its verdict and how many checks ran.
pub fn log_diagnostics(
    log: &mut VecDeque<ConnectorEvent>,
    request_id: &str,
    report: &DiagnosticsReport,
)
    ensures
        logged_for_request(
            old(log)@,
            final(log)@,
            "diagnostics_run"@,
            verdict_severity(report.overall),
            "Diagnostics: "@ + verdict_name(report.overall),
            request_id@,
            seq![
                ("result"@, DetailFact::Text(verdict_name(report.overall))),
                ("checks"@, DetailFact::Count(report.checks@.len() as u64)),
            ],
        ),
{
    let name = report.overall.as_str();
    let message = join2("Diagnostics: ", name);
    let mut d: Vec<DetailEntry> = Vec::new();
    d.push(text_detail("result", name));
    d.push(count_detail("checks", report.checks.len() as u64));
    assert(details_view(d@) =~= seq![
        ("result"@, DetailFact::Text(verdict_name(report.overall))),
        ("checks"@, DetailFact::Count(report.checks@.len() as u64)),
    ]);
    log_event(log, "diagnostics_run", report.overall.severity(), message.as_str(), request_id, d);
}


/// What a diagnostics run needs once the request is authorised: its request id,
/// the clock reading it started at, the connector state it checks, and the
/// printer port to probe, if a printer address is set.
pub struct DiagnosticsPlan {
    pub request_id: String,
    pub started: u128,
    pub mode: ConnectorRunMode,
    pub printer_ip: String,
    pub paired: bool,
    pub setup_complete: bool,
    pub hardware_verified: bool,
    pub probe_address: Option<String>,
}

/// The answer to a diagnostics run.
pub struct DiagnosticsAnswer {
    pub ok: bool,
    pub result: String,
    pub overall: Verdict,
    pub checks: Vec<DiagCheck>,
    pub duration_ms: u64,
    pub request_id: String,
}

/// Starts a diagnostics request: refused when not authorised, and then nothing
/// is probed or logged; else the state to check is taken from `config`, with the
/// printer port to probe exactly when a printer address is set.
pub fn diagnostics_start(
    headers: &HeaderMap,
    config: &ConnectorConfig,
    clock: &ConnectorClock,
) -> (res: Result<DiagnosticsPlan, ApiError>)
    ensures
        ({
            let fields = header_fields(*headers);
            let verdict = auth_verdict(*config, claimed_origin(fields), presented_token(fields));
            &&& verdict is Err ==> (res matches Err(e) && e == verdict->Err_0)
            &&& verdict is Ok ==> (res matches Ok(p) && {
                &&& generated_id_text(p.request_id@)
                &&& p.mode == config.connector_run_mode
                &&& p.printer_ip@ == config.printer_ip@
                &&& p.paired == paired(*config)
                &&& p.setup_complete == config.setup_complete
                &&& p.hardware_verified == config.hardware_verified
                &&& (p.probe_address is Some <==> configured(*config))
                &&& p.probe_address matches Some(a) ==> a@ == address_text(config.printer_ip@, 9100)
            })
        }),
{
    if let Err(e) = validate_auth(headers, config) {
        return Err(e);
    }
    let request_id = generate_request_id();
    let started = clock.now_nanos();
    let probe_address = if needs_port_probe(config.printer_ip.as_str()) {
        Some(printer_address(config.printer_ip.as_str(), 9100))
    } else {
        None
    };
    Ok(
        DiagnosticsPlan {
            request_id,
            started,
            mode: config.connector_run_mode,
            printer_ip: config.printer_ip.clone(),
            paired: !config.pairing_token.as_str().is_empty(),
            setup_complete: config.setup_complete,
            hardware_verified: config.hardware_verified,
            probe_address,
        },
    )
}

/// Finishes a diagnostics run, given how the probe of the printer port ended
/// (when one was made): runs the checks, logs exactly one event for the run
/// under its request id, and answers with the verdict, `ok` unless it failed.
pub fn diagnostics_finish(
    plan: DiagnosticsPlan,
    probe: Option<PortProbe>,
    clock: &ConnectorClock,
    log: &mut VecDeque<ConnectorEvent>,
) -> (r: DiagnosticsAnswer)
    requires
        probe is Some <==> plan.printer_ip@.len() > 0,
    ensures
        r.checks@.map_values(|c: DiagCheck| c@) == diagnostic_checks(
            plan.mode,
            plan.printer_ip@,
            plan.paired,
            plan.setup_complete,
            plan.hardware_verified,
            probe,
        ),
        r.overall == overall_verdict(
            plan.mode,
            plan.printer_ip@,
            plan.paired,
            plan.setup_complete,
            plan.hardware_verified,
            probe,
        ),
        r.ok == (r.overall != Verdict::Failed),
        r.result@ == "diagnostic_"@ + verdict_name(r.overall),
        r.request_id@ == plan.request_id@,
        exists|end: u128| r.duration_ms == #[trigger] millis_between(plan.started, end),
        logged_for_request(
            old(log)@,
            final(log)@,
            "diagnostics_run"@,
            verdict_severity(r.overall),
            "Diagnostics: "@ + verdict_name(r.overall),
            plan.request_id@,
            seq![
                ("result"@, DetailFact::Text(verdict_name(r.overall))),
                ("checks"@, DetailFact::Count(r.checks@.len() as u64)),
            ],
        ),
{
    let report = diagnostics_run(
        plan.mode,
        plan.printer_ip.as_str(),
        plan.paired,
        plan.setup_complete,
        plan.hardware_verified,
        probe,
    );
    let end = clock.now_nanos();
    let duration_ms = millis_from(plan.started, end);
    log_diagnostics(log, plan.request_id.as_str(), &report);
    let result = diagnostics_result(report.overall);
    DiagnosticsAnswer {
        ok: report.overall != Verdict::Failed,
        result,
        overall: report.overall,
        checks: report.checks,
        duration_ms,
        request_id: plan.request_id,
    }
}

} // verus!
