use vstd::prelude::*;
use std::collections::VecDeque;
use std::time::SystemTime;
use axum::http::HeaderMap;
use crate::auth::{origin_accepted, origin_allowed};
use crate::clock::{system_now, unix_now_secs};
use crate::config::{paired, ConnectorConfig, ConnectorRunMode};
use crate::errors::ApiError;
use crate::events::{
    details_view, flag_detail, log_fresh_event, logged_fresh, text_detail, ConnectorEvent, DetailEntry,
    DetailFact,
};
use crate::headers::{claimed_origin, header_fields, request_origin};
use crate::random::{generate_pairing_token, pairing_token_shape};
use crate::text::{decimal, decimal_string};

verus! {

/// A pairing request waiting for approval in the connector's own window.
#[derive(Debug)]
pub struct PendingPairing {
    pub token: String,
    pub terminal_id: String,
    pub location_id: String,
    pub origin: String,
    pub requested_at: SystemTime,
}

/// What the connector's window shows of a pending pairing request.
#[derive(Clone, Debug)]
pub struct PendingPairingView {
    pub token: String,
    pub origin: String,
}

/// The body of a pairing request; the connector does not use its fields.
pub struct PairStartRequest {
    pub terminal_id: Option<String>,
    pub location_id: Option<String>,
}

/// Where pairing stands, as a terminal asks it.
#[derive(Clone, Copy, Debug, PartialEq, Eq, Structural)]
pub enum PairStatus {
    Approved { setup_complete: bool, hardware_verified: bool, mode: ConnectorRunMode },
    Pending,
    Unpaired,
}

/// The pairing status for a configuration and whether a request is waiting.
pub open spec fn pair_status_of(c: ConnectorConfig, waiting: bool) -> PairStatus {
    if paired(c) {
        PairStatus::Approved {
            setup_complete: c.setup_complete,
            hardware_verified: c.hardware_verified,
            mode: c.connector_run_mode,
        }
    } else if waiting {
        PairStatus::Pending
    } else {
        PairStatus::Unpaired
    }
}

/// The `status` field of each pairing status.
pub open spec fn pair_status_name(s: PairStatus) -> Seq<char> {
    match s {
        PairStatus::Approved { .. } => "approved"@,
        PairStatus::Pending => "pending"@,
        PairStatus::Unpaired => "unpaired"@,
    }
}

/// `c` with only its pairing token replaced.
pub open spec fn with_pairing_token(c: ConnectorConfig, token: String) -> ConnectorConfig {
    ConnectorConfig { pairing_token: token, ..c }
}

/// `c` after the setup wizard finishes at Unix time `now`: setup is complete,
/// and where the hardware was verified, that is recorded with the time and the
/// wizard as its source; nothing else changes.
pub open spec fn after_setup(before: ConnectorConfig, after: ConnectorConfig, hardware_verified: bool, now: nat) -> bool {
    &&& after.setup_complete
    &&& after.printer_type == before.printer_type
    &&& after.printer_ip == before.printer_ip
    &&& after.printer_port == before.printer_port
    &&& after.drawer_kick_command == before.drawer_kick_command
    &&& after.pairing_token == before.pairing_token
    &&& after.allowed_origins == before.allowed_origins
    &&& after.dev_mode == before.dev_mode
    &&& after.start_at_login == before.start_at_login
    &&& after.connector_run_mode == before.connector_run_mode
    &&& if hardware_verified {
        &&& after.hardware_verified
        &&& after.last_hardware_verified_at matches Some(t) && t@ == decimal(now)
        &&& after.hardware_verification_source matches Some(src) && src@ == "wizard"@
    } else {
        &&& after.hardware_verified == before.hardware_verified
        &&& after.last_hardware_verified_at == before.last_hardware_verified_at
        &&& after.hardware_verification_source == before.hardware_verification_source
    }
}

impl PairStatus {
    pub fn as_str(&self) -> (s: &'static str)
        ensures
            s@ == pair_status_name(*self),
    {
        match self {
            PairStatus::Approved { .. } => "approved",
            PairStatus::Pending => "pending",
            PairStatus::Unpaired => "unpaired",
        }
    }
}

/// What the connector's window shows of the pending request, if any.
pub fn pending_pairing_request(pending: &Option<PendingPairing>) -> (r: Option<PendingPairingView>)
    ensures
        r is None <==> pending is None,
        r matches Some(v) ==> v.token@ == pending->0.token@ && v.origin@ == pending->0.origin@,
{
    match pending {
        Some(p) => Some(PendingPairingView { token: p.token.clone(), origin: p.origin.clone() }),
        None => None,
    }
}

/// Approves the pending request: its token becomes the configuration's pairing
/// token and nothing else of the configuration changes; with no request
/// pending, nothing changes and the answer is an error.
pub fn approve_pairing_request(
    pending: &mut Option<PendingPairing>,
    config: &mut ConnectorConfig,
    log: &mut VecDeque<ConnectorEvent>,
) -> (r: Result<String, String>)
    ensures
        *old(pending) is None ==> {
            &&& r matches Err(m) && m@ == "No pending pairing request"@
            &&& *final(pending) is None
            &&& *final(config) == *old(config)
            &&& final(log)@ == old(log)@
        },
        *old(pending) is Some ==> {
            let p = old(pending)->0;
            &&& r matches Ok(t) && t@ == p.token@
            &&& *final(pending) is None
            &&& *final(config) == with_pairing_token(*old(config), final(config).pairing_token)
            &&& final(config).pairing_token@ == p.token@
            &&& logged_fresh(
                old(log)@,
                final(log)@,
                "pair_approved"@,
                "success"@,
                "Pairing approved"@,
                seq![("origin"@, DetailFact::Text(p.origin@))],
            )
        },
{
    match pending.take() {
        Some(p) => {
            let token = p.token.clone();
            config.pairing_token = token.clone();
            let mut details: Vec<DetailEntry> = Vec::new();
            details.push(text_detail("origin", p.origin.as_str()));
            assert(details_view(details@) =~= seq![("origin"@, DetailFact::Text(p.origin@))]);
            log_fresh_event(log, "pair_approved", "success", "Pairing approved", details);
            Ok(token)
        },
        None => Err(String::from_str("No pending pairing request")),
    }
}

/// Drops the pending request, if any, and records the denial.
pub fn deny_pairing_request(
    pending: &mut Option<PendingPairing>,
    log: &mut VecDeque<ConnectorEvent>,
) -> (r: Result<(), String>)
    ensures
        r is Ok,
        *final(pending) is None,
        logged_fresh(old(log)@, final(log)@, "pair_denied"@, "info"@, "Pairing denied"@, seq![]),
{
    *pending = None;
    let details: Vec<DetailEntry> = Vec::new();
    assert(details_view(details@) =~= seq![]);
    log_fresh_event(log, "pair_denied", "info", "Pairing denied", details);
    Ok(())
}

/// Marks setup complete at Unix time `now`; records hardware verification when it happened.
pub fn finish_setup_at(config: &mut ConnectorConfig, hardware_verified: bool, now: u64)
    ensures
        after_setup(*old(config), *final(config), hardware_verified, now as nat),
        final(config).setup_complete,
        hardware_verified ==> final(config).hardware_verified,
        !hardware_verified ==> {
            &&& final(config).hardware_verified == old(config).hardware_verified
            &&& final(config).last_hardware_verified_at == old(config).last_hardware_verified_at
            &&& final(config).hardware_verification_source == old(
                config,
            ).hardware_verification_source
        },
{
    config.setup_complete = true;
    if hardware_verified {
        config.hardware_verified = true;
        config.last_hardware_verified_at = Some(decimal_string(now));
        config.hardware_verification_source = Some(String::from_str("wizard"));
    }
}

/// Marks setup complete now, records hardware verification when it happened,
/// and logs the completion.
pub fn finish_setup_state(
    config: &mut ConnectorConfig,
    log: &mut VecDeque<ConnectorEvent>,
    hardware_verified: bool,
)
    ensures
        exists|now: nat| after_setup(*old(config), *final(config), hardware_verified, now),
        final(config).setup_complete,
        hardware_verified ==> final(config).hardware_verified,
        !hardware_verified ==> {
            &&& final(config).hardware_verified == old(config).hardware_verified
            &&& final(config).last_hardware_verified_at == old(config).last_hardware_verified_at
            &&& final(config).hardware_verification_source == old(
                config,
            ).hardware_verification_source
        },
        logged_fresh(
            old(log)@,
            final(log)@,
            "setup_completed"@,
            "success"@,
            "Setup wizard completed"@,
            seq![("hardwareVerified"@, DetailFact::Flag(hardware_verified))],
        ),
{
    let now = unix_now_secs();
    finish_setup_at(config, hardware_verified, now);
    let mut details: Vec<DetailEntry> = Vec::new();
    details.push(flag_detail("hardwareVerified", hardware_verified));
    assert(details_view(details@) =~= seq![("hardwareVerified"@, DetailFact::Flag(hardware_verified))]);
    log_fresh_event(log, "setup_completed", "success", "Setup wizard completed", details);
}

/// Answers a pairing request from `origin`: refused when the origin is not
/// allowed; otherwise a fresh token is issued, held as the pending request
/// (replacing any earlier one) and the request is logged.
pub fn pair_start(
    headers: &HeaderMap,
    config: &ConnectorConfig,
    pending: &mut Option<PendingPairing>,
    log: &mut VecDeque<ConnectorEvent>,
) -> (r: Result<String, ApiError>)
    ensures
        ({
            let origin = claimed_origin(header_fields(*headers));
            &&& !origin_accepted(*config, origin) ==> {
                &&& r == Err::<String, ApiError>(ApiError::OriginRejected)
                &&& *final(pending) == *old(pending)
                &&& final(log)@ == old(log)@
            }
            &&& origin_accepted(*config, origin) ==> {
                &&& r matches Ok(t) && pairing_token_shape(t@)
                &&& *final(pending) matches Some(p) && {
                    &&& p.token@ == r->Ok_0@
                    &&& p.origin@ == origin
                    &&& p.terminal_id@.len() == 0
                    &&& p.location_id@.len() == 0
                }
                &&& logged_fresh(
                    old(log)@,
                    final(log)@,
                    "pair_requested"@,
                    "info"@,
                    "Pairing requested"@,
                    seq![("origin"@, DetailFact::Text(origin))],
                )
            }
        }),
{
    let origin = request_origin(headers);
    if !origin_allowed(config, origin.as_str()) {
        return Err(ApiError::OriginRejected);
    }
    let token = generate_pairing_token();
    let mut details: Vec<DetailEntry> = Vec::new();
    details.push(text_detail("origin", origin.as_str()));
    assert(details_view(details@) =~= seq![("origin"@, DetailFact::Text(origin@))]);
    *pending = Some(
        PendingPairing {
            token: token.clone(),
            terminal_id: String::new(),
            location_id: String::new(),
            origin,
            requested_at: system_now(),
        },
    );
    log_fresh_event(log, "pair_requested", "info", "Pairing requested", details);
    Ok(token)
}

/// Answers a terminal asking where pairing stands: refused when the origin is
/// not allowed, else approved once a token is stored, else pending while a
/// request waits, else unpaired.
pub fn pair_status(
    headers: &HeaderMap,
    config: &ConnectorConfig,
    pending: &Option<PendingPairing>,
) -> (r: Result<PairStatus, ApiError>)
    ensures
        !origin_accepted(*config, claimed_origin(header_fields(*headers))) ==> r
            == Err::<PairStatus, ApiError>(ApiError::OriginRejected),
        origin_accepted(*config, claimed_origin(header_fields(*headers))) ==> r == Ok::<
            PairStatus,
            ApiError,
        >(pair_status_of(*config, pending is Some)),
{
    let origin = request_origin(headers);
    if !origin_allowed(config, origin.as_str()) {
        return Err(ApiError::OriginRejected);
    }
    if !config.pairing_token.as_str().is_empty() {
        return Ok(
            PairStatus::Approved {
                setup_complete: config.setup_complete,
                hardware_verified: config.hardware_verified,
                mode: config.connector_run_mode,
            },
        );
    }
    if pending.is_some() {
        Ok(PairStatus::Pending)
    } else {
        Ok(PairStatus::Unpaired)
    }
}

} // verus!
