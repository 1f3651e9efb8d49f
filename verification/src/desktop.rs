use vstd::prelude::*;
use crate::config::{
    configured, escpos_port, network_escpos_type, paired, standard_kick_command, ConnectorConfig,
    ConnectorRunMode, PrinterCandidate,
};

verus! {

/// What the desktop window's "send test open" button does.
pub enum TestOpenPlan {
    /// Nothing is sent; answer `result` and write `log_line` to the desktop log.
    Skip { result: &'static str, log_line: &'static str },
    /// Send the drawer kick to the printer at `ip:port`.
    Send { ip: String, port: u16 },
}

/// What the desktop window's "test printer connection" button does.
pub enum ConnectionTestPlan {
    /// Nothing is probed; answer `result` and write `log_line` to the desktop log.
    Skip { result: &'static str, log_line: &'static str },
    /// Probe the printer at `ip:port`.
    Probe { ip: String, port: u16 },
}

/// What the diagnostics export shows of the configuration: everything but the
/// pairing token, of which it shows only whether one is stored.
pub struct ConfigExport {
    pub printer_type: String,
    pub printer_ip: String,
    pub printer_port: u16,
    pub drawer_kick_command: String,
    pub allowed_origins: Vec<String>,
    pub dev_mode: bool,
    pub start_at_login: bool,
    pub setup_complete: bool,
    pub pairing_token_configured: bool,
}

/// `after` is `before` with the network printer `candidate` selected.
pub open spec fn printer_selected(
    before: ConnectorConfig,
    after: ConnectorConfig,
    candidate: PrinterCandidate,
) -> bool {
    &&& after.printer_type@ == network_escpos_type()
    &&& after.printer_ip@ == candidate.ip@
    &&& after.printer_port == candidate.port
    &&& after.drawer_kick_command@ == standard_kick_command()
    &&& after.pairing_token == before.pairing_token
    &&& after.allowed_origins == before.allowed_origins
    &&& after.dev_mode == before.dev_mode
    &&& after.start_at_login == before.start_at_login
    &&& after.setup_complete == before.setup_complete
    &&& after.hardware_verified == before.hardware_verified
    &&& after.last_hardware_verified_at == before.last_hardware_verified_at
    &&& after.hardware_verification_source == before.hardware_verification_source
    &&& after.connector_run_mode == before.connector_run_mode
}

/// The last `count` lines of `lines`, in their order.
pub open spec fn last_n<T>(lines: Seq<T>, count: nat) -> Seq<T> {
    if lines.len() <= count {
        lines
    } else {
        lines.subrange(lines.len() - count, lines.len() as int)
    }
}

/// The network printers found; discovery finds none yet.
pub fn discover_network_printers() -> (r: Vec<PrinterCandidate>)
    ensures
        r@.len() == 0,
{
    Vec::new()
}

/// Selects a network printer: its address and port, the ESC/POS type and the
/// standard drawer kick; nothing else changes.
pub fn select_printer(config: &mut ConnectorConfig, candidate: &PrinterCandidate)
    ensures
        printer_selected(*old(config), *final(config), *candidate),
{
    config.printer_type = String::from_str("network_escpos");
    config.printer_ip = candidate.ip.clone();
    config.printer_port = candidate.port;
    config.drawer_kick_command = String::from_str("1B700019FA");
}

/// Decides what the "send test open" button does: nothing outside live mode,
/// nothing without a printer address, else send the kick.
pub fn test_open_plan(config: &ConnectorConfig) -> (r: TestOpenPlan)
    ensures
        config.connector_run_mode == ConnectorRunMode::Simulation ==> (r matches TestOpenPlan::Skip {
            result,
            log_line,
        } && result@ == "simulation_only"@ && log_line@
            == "send_test_open_command: simulation mode, no bytes sent"@),
        config.connector_run_mode == ConnectorRunMode::Diagnostic ==> (r matches TestOpenPlan::Skip {
            result,
            log_line,
        } && result@ == "diagnostic_only"@ && log_line@
            == "send_test_open_command: diagnostic mode, no bytes sent"@),
        config.connector_run_mode == ConnectorRunMode::Live && !configured(*config) ==> (r matches TestOpenPlan::Skip {
            result,
            log_line,
        } && result@ == "printer_not_configured"@ && log_line@
            == "open command failed PRINTER_NOT_CONFIGURED"@),
        config.connector_run_mode == ConnectorRunMode::Live && configured(*config) ==> (r matches TestOpenPlan::Send {
            ip,
            port,
        } && ip@ == config.printer_ip@ && port == config.printer_port),
{
    match config.connector_run_mode {
        ConnectorRunMode::Simulation => {
            return TestOpenPlan::Skip {
                result: "simulation_only",
                log_line: "send_test_open_command: simulation mode, no bytes sent",
            };
        },
        ConnectorRunMode::Diagnostic => {
            return TestOpenPlan::Skip {
                result: "diagnostic_only",
                log_line: "send_test_open_command: diagnostic mode, no bytes sent",
            };
        },
        ConnectorRunMode::Live => {},
    }
    if config.printer_ip.as_str().is_empty() {
        return TestOpenPlan::Skip {
            result: "printer_not_configured",
            log_line: "open command failed PRINTER_NOT_CONFIGURED",
        };
    }
    TestOpenPlan::Send { ip: config.printer_ip.clone(), port: config.printer_port }
}

/// The answer and log line once the test kick was sent or failed.
pub fn test_open_result(sent: bool) -> (r: (&'static str, &'static str))
    ensures
        sent ==> r.0@ == "command_sent"@ && r.1@ == "open command sent"@,
        !sent ==> r.0@ == "failed"@ && r.1@ == "open command failed"@,
{
    if sent {
        ("command_sent", "open command sent")
    } else {
        ("failed", "open command failed")
    }
}

/// Decides what the "test printer connection" button does: nothing without a
/// printer address, else probe the printer.
pub fn connection_test_plan(config: &ConnectorConfig) -> (r: ConnectionTestPlan)
    ensures
        !configured(*config) ==> (r matches ConnectionTestPlan::Skip { result, log_line }
            && result@ == "printer_not_configured"@ && log_line@
            == "test failed PRINTER_NOT_CONFIGURED"@),
        configured(*config) ==> (r matches ConnectionTestPlan::Probe { ip, port } && ip@
            == config.printer_ip@ && port == config.printer_port),
{
    if config.printer_ip.as_str().is_empty() {
        return ConnectionTestPlan::Skip {
            result: "printer_not_configured",
            log_line: "test failed PRINTER_NOT_CONFIGURED",
        };
    }
    ConnectionTestPlan::Probe { ip: config.printer_ip.clone(), port: config.printer_port }
}

/// The answer and log line once the printer was probed.
pub fn connection_test_result(reachable: bool) -> (r: (&'static str, &'static str))
    ensures
        reachable ==> r.0@ == "reachable"@ && r.1@ == "printer connection ok"@,
        !reachable ==> r.0@ == "unreachable"@ && r.1@ == "printer connection failed"@,
{
    if reachable {
        ("reachable", "printer connection ok")
    } else {
        ("unreachable", "printer connection failed")
    }
}

fn copy_strings(v: &Vec<String>) -> (r: Vec<String>)
    ensures
        r@ == v@,
{
    let n = v.len();
    let mut r: Vec<String> = Vec::new();
    let mut i: usize = 0;
    while i < n
        invariant
            n == v@.len(),
            i <= n,
            r@ =~= v@.subrange(0, i as int),
        decreases n - i,
    {
        r.push(v[i].clone());
        i = i + 1;
    }
    r
}

/// What the diagnostics export shows of `config`.
pub fn export_config(config: &ConnectorConfig) -> (r: ConfigExport)
    ensures
        r.printer_type == config.printer_type,
        r.printer_ip == config.printer_ip,
        r.printer_port == config.printer_port,
        r.drawer_kick_command == config.drawer_kick_command,
        r.allowed_origins@ == config.allowed_origins@,
        r.dev_mode == config.dev_mode,
        r.start_at_login == config.start_at_login,
        r.setup_complete == config.setup_complete,
        r.pairing_token_configured == paired(*config),
{
    ConfigExport {
        printer_type: config.printer_type.clone(),
        printer_ip: config.printer_ip.clone(),
        printer_port: config.printer_port,
        drawer_kick_command: config.drawer_kick_command.clone(),
        allowed_origins: copy_strings(&config.allowed_origins),
        dev_mode: config.dev_mode,
        start_at_login: config.start_at_login,
        setup_complete: config.setup_complete,
        pairing_token_configured: !config.pairing_token.as_str().is_empty(),
    }
}

/// The last `count` lines of the desktop log, oldest first.
pub fn last_lines(lines: Vec<String>, count: usize) -> (r: Vec<String>)
    ensures
        r@ == last_n(lines@, count as nat),
{
    let n = lines.len();
    if n <= count {
        return lines;
    }
    let start = n - count;
    let mut r: Vec<String> = Vec::new();
    let mut i: usize = start;
    while i < n
        invariant
            n == lines@.len(),
            start <= i <= n,
            r@ =~= lines@.subrange(start as int, i as int),
        decreases n - i,
    {
        r.push(lines[i].clone());
        i = i + 1;
    }
    r
}

} // verus!
