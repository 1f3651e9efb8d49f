//! Local connector for cash drawer commands: configuration, pairing,
//! request authorisation, drawer decisions, diagnostics and the event log,
//! each stated and proved with Verus.
//!
//! The HTTP server, the TCP connection to the printer and the configuration
//! file live in the binary around this library; here is everything they decide.

pub mod auth;
pub mod clock;
pub mod config;
pub mod desktop;
pub mod diagnostics;
pub mod drawer;
pub mod errors;
pub mod events;
pub mod headers;
pub mod laws;
pub mod pairing;
pub mod random;
pub mod status;
pub mod text;

pub use auth::{allowed_origin, check_auth, origin_allowed, validate_auth};
pub use clock::{
    check_rate_limit, chrono_like_timestamp, rate_limit_at, rate_limit_verdict, unix_now_secs,
    ConnectorClock,
};
pub use config::{
    default_config, default_kick_cmd, default_origins, default_port, default_printer_type,
    default_true, is_configured, ConnectorConfig, ConnectorRunMode, PrinterCandidate, MAX_EVENTS,
    VERSION,
};
pub use desktop::{
    connection_test_plan, connection_test_result, discover_network_printers, export_config,
    last_lines, select_printer, test_open_plan, test_open_result, ConfigExport,
    ConnectionTestPlan, TestOpenPlan,
};
pub use diagnostics::{
    diagnostics_finish, diagnostics_result, diagnostics_run, diagnostics_start, log_diagnostics,
    needs_port_probe, DiagCheck, DiagnosticsAnswer, DiagnosticsPlan, DiagnosticsReport, PortProbe,
    Verdict,
};
pub use drawer::{
    drawer_kick_bytes, drawer_reason, kick_reply, open_drawer, printer_address, upper_snake_string,
    DrawerOutcome, DrawerRequest, KickOutcome, KickReply,
};
pub use errors::{ApiError, ErrorReply};
pub use events::{
    last_event, log_event, log_event_at, recent_events, record_event, ConnectorEvent, DetailEntry,
    DetailValue,
};
pub use headers::{header_value_text, request_origin, request_token};
pub use pairing::{
    approve_pairing_request, deny_pairing_request, finish_setup_at, finish_setup_state,
    pair_start, pair_status, pending_pairing_request, PairStartRequest, PairStatus,
    PendingPairing, PendingPairingView,
};
pub use random::{generate_pairing_token, generate_request_id, request_id_from};
pub use status::{
    events_recent, health, millis_from, server_origins, simulate, status, Capabilities,
    HealthReport, LastEventSummary, SimulationReply, StatusReport,
};
pub use text::{decimal_string, hex_fixed_string, starts_with, trim_end_slashes};
