use vstd::prelude::*;

verus! {

/// Version reported by every endpoint.
pub const VERSION: &'static str = "0.3.0";

/// Largest number of events the event log keeps.
pub const MAX_EVENTS: usize = 50;

/// How the connector treats drawer commands.
#[derive(Clone, Copy, Debug, PartialEq, Eq, Structural)]
pub enum ConnectorRunMode {
    Simulation,
    Diagnostic,
    Live,
}

/// The name of a run mode as it appears on the wire.
pub open spec fn mode_name(m: ConnectorRunMode) -> Seq<char> {
    match m {
        ConnectorRunMode::Simulation => "simulation"@,
        ConnectorRunMode::Diagnostic => "diagnostic"@,
        ConnectorRunMode::Live => "live"@,
    }
}

impl Default for ConnectorRunMode {
    fn default() -> (m: Self)
        ensures
            m == ConnectorRunMode::Simulation,
    {
        ConnectorRunMode::Simulation
    }
}

impl ConnectorRunMode {
    pub fn as_str(&self) -> (s: &'static str)
        ensures
            s@ == mode_name(*self),
    {
        match self {
            ConnectorRunMode::Simulation => "simulation",
            ConnectorRunMode::Diagnostic => "diagnostic",
            ConnectorRunMode::Live => "live",
        }
    }
}


/// Everything the connector is configured with.
#[derive(Clone, Debug)]
pub struct ConnectorConfig {
    pub printer_type: String,
    pub printer_ip: String,
    pub printer_port: u16,
    pub drawer_kick_command: String,
    pub pairing_token: String,
    pub allowed_origins: Vec<String>,
    pub dev_mode: bool,
    pub start_at_login: bool,
    pub setup_complete: bool,
    pub hardware_verified: bool,
    pub last_hardware_verified_at: Option<String>,
    pub hardware_verification_source: Option<String>,
    pub connector_run_mode: ConnectorRunMode,
}

/// A printer found on the network, offered to the setup wizard.
#[derive(Clone, Debug)]
pub struct PrinterCandidate {
    pub name: String,
    pub ip: String,
    pub port: u16,
    pub status: String,
}

/// The printer type the connector supports.
pub open spec fn network_escpos_type() -> Seq<char> {
    "network_escpos"@
}

/// The drawer kick command, written in hexadecimal, that the configuration records.
pub open spec fn standard_kick_command() -> Seq<char> {
    "1B700019FA"@
}

/// The web origin allowed when nothing else is configured.
pub open spec fn standard_origin() -> Seq<char> {
    "https://franchisetech.ro"@
}

/// The raw TCP port of an ESC/POS network printer.
pub open spec fn escpos_port() -> u16 {
    9100
}

/// What a fresh configuration holds.
pub open spec fn is_default_config(c: ConnectorConfig) -> bool {
    &&& c.printer_type@ == network_escpos_type()
    &&& c.printer_ip@ == Seq::<char>::empty()
    &&& c.printer_port == escpos_port()
    &&& c.drawer_kick_command@ == standard_kick_command()
    &&& c.pairing_token@ == Seq::<char>::empty()
    &&& c.allowed_origins@.len() == 1
    &&& c.allowed_origins@[0]@ == standard_origin()
    &&& !c.dev_mode
    &&& c.start_at_login
    &&& !c.setup_complete
    &&& !c.hardware_verified
    &&& c.last_hardware_verified_at is None
    &&& c.hardware_verification_source is None
    &&& c.connector_run_mode == ConnectorRunMode::Simulation
}

/// Whether a printer address has been entered.
pub open spec fn configured(c: ConnectorConfig) -> bool {
    c.printer_ip@.len() > 0
}

/// Whether a pairing token has been stored.
pub open spec fn paired(c: ConnectorConfig) -> bool {
    c.pairing_token@.len() > 0
}

pub fn default_printer_type() -> (s: String)
    ensures
        s@ == network_escpos_type(),
{
    String::from_str("network_escpos")
}

pub fn default_port() -> (p: u16)
    ensures
        p == escpos_port(),
{
    9100
}

pub fn default_kick_cmd() -> (s: String)
    ensures
        s@ == standard_kick_command(),
{
    String::from_str("1B700019FA")
}

pub fn default_origins() -> (v: Vec<String>)
    ensures
        v@.len() == 1,
        v@[0]@ == standard_origin(),
{
    let mut v: Vec<String> = Vec::new();
    v.push(String::from_str("https://franchisetech.ro"));
    v
}

pub fn default_true() -> (b: bool)
    ensures
        b,
{
    true
}

/// A fresh configuration: simulation mode, no printer, not paired.
pub fn default_config() -> (c: ConnectorConfig)
    ensures
        is_default_config(c),
{
    ConnectorConfig {
        printer_type: default_printer_type(),
        printer_ip: String::new(),
        printer_port: 9100,
        drawer_kick_command: default_kick_cmd(),
        pairing_token: String::new(),
        allowed_origins: default_origins(),
        dev_mode: false,
        start_at_login: true,
        setup_complete: false,
        hardware_verified: false,
        last_hardware_verified_at: None,
        hardware_verification_source: None,
        connector_run_mode: ConnectorRunMode::Simulation,
    }
}

/// Whether a printer address has been entered.
pub fn is_configured(config: &ConnectorConfig) -> (b: bool)
    ensures
        b == configured(*config),
{
    !config.printer_ip.as_str().is_empty()
}

} // verus!
