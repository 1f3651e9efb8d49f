use vstd::prelude::*;
use crate::auth::{auth_verdict, origin_accepted};
use crate::clock::{nanos_after, rate_limited_at, rate_window_nanos};
use crate::config::{paired, ConnectorConfig, ConnectorRunMode, MAX_EVENTS};
use crate::diagnostics::{
    diagnostic_checks, hardware_check, overall_verdict, worst_verdict, PortProbe, Verdict,
};
use crate::errors::{error_code, error_result, ApiError};
use crate::events::{appended, ConnectorEvent};
use crate::pairing::{after_setup, pair_status_of, with_pairing_token, PairStatus};
use crate::random::pairing_token_shape;
use crate::status::with_origin;
use crate::text::upper_snake;

verus! {

/// Every error code is the result name written in upper case.
pub proof fn law_error_code_is_upper_result(e: ApiError)
    ensures
        error_code(e) == upper_snake(error_result(e)),
{
    match e {
        ApiError::OriginRejected => {
            reveal_strlit("ORIGIN_REJECTED");
            reveal_strlit("origin_rejected");
            assert(error_code(e) =~= upper_snake(error_result(e)));
        },
        ApiError::MissingToken => {
            reveal_strlit("MISSING_TOKEN");
            reveal_strlit("missing_token");
            assert(error_code(e) =~= upper_snake(error_result(e)));
        },
        ApiError::InvalidToken => {
            reveal_strlit("INVALID_TOKEN");
            reveal_strlit("invalid_token");
            assert(error_code(e) =~= upper_snake(error_result(e)));
        },
        ApiError::NotPaired => {
            reveal_strlit("NOT_PAIRED");
            reveal_strlit("not_paired");
            assert(error_code(e) =~= upper_snake(error_result(e)));
        },
        ApiError::RateLimited => {
            reveal_strlit("RATE_LIMITED");
            reveal_strlit("rate_limited");
            assert(error_code(e) =~= upper_snake(error_result(e)));
        },
        ApiError::PrinterIpMissing => {
            reveal_strlit("PRINTER_IP_MISSING");
            reveal_strlit("printer_ip_missing");
            assert(error_code(e) =~= upper_snake(error_result(e)));
        },
        ApiError::HardwareNotVerified => {
            reveal_strlit("HARDWARE_NOT_VERIFIED");
            reveal_strlit("hardware_not_verified");
            assert(error_code(e) =~= upper_snake(error_result(e)));
        },
        ApiError::SimulationOnly => {
            reveal_strlit("SIMULATION_ONLY");
            reveal_strlit("simulation_only");
            assert(error_code(e) =~= upper_snake(error_result(e)));
        },
        ApiError::DiagnosticOnly => {
            reveal_strlit("DIAGNOSTIC_ONLY");
            reveal_strlit("diagnostic_only");
            assert(error_code(e) =~= upper_snake(error_result(e)));
        },
    }
}


/// The event log never holds more than `MAX_EVENTS` events: appending to a log
/// within the bound keeps it within the bound, the new event comes last, and
/// only the oldest event can leave.
pub proof fn law_event_log_bounded(log: Seq<ConnectorEvent>, event: ConnectorEvent)
    requires
        log.len() <= MAX_EVENTS,
    ensures
        appended(log, event).len() <= MAX_EVENTS,
        appended(log, event).last() == event,
        log.len() < MAX_EVENTS ==> appended(log, event) == log.push(event),
        log.len() == MAX_EVENTS ==> appended(log, event) == log.subrange(1, log.len() as int).push(
            event,
        ),
{
    if log.len() == MAX_EVENTS {
        assert(log.push(event).drop_first() =~= log.subrange(1, log.len() as int).push(event));
    }
}

/// A request from an accepted origin that presents the stored pairing token is
/// authorised.
pub proof fn law_stored_token_authorises(c: ConnectorConfig, origin: Seq<char>)
    requires
        paired(c),
        origin_accepted(c, origin),
    ensures
        auth_verdict(c, origin, c.pairing_token@) == Ok::<(), ApiError>(()),
{
}

/// Once a pairing request is approved, its token authorises requests from
/// accepted origins, and the pairing status reads approved with the setup and
/// hardware state unchanged by the approval.
pub proof fn law_approved_token_authorises(
    c: ConnectorConfig,
    token: String,
    origin: Seq<char>,
    waiting: bool,
)
    requires
        pairing_token_shape(token@),
        origin_accepted(c, origin),
    ensures
        auth_verdict(with_pairing_token(c, token), origin, token@) == Ok::<(), ApiError>(()),
        pair_status_of(with_pairing_token(c, token), waiting) == (PairStatus::Approved {
            setup_complete: c.setup_complete,
            hardware_verified: c.hardware_verified,
            mode: c.connector_run_mode,
        }),
{
    assert(origin_accepted(with_pairing_token(c, token), origin));
}

/// Approving a pairing request never marks setup complete.
pub proof fn law_approval_leaves_setup_alone(c: ConnectorConfig, token: String)
    ensures
        with_pairing_token(c, token).setup_complete == c.setup_complete,
        with_pairing_token(c, token).hardware_verified == c.hardware_verified,
{
}

/// The status answer's `originAllowed` agrees with the origin check of every
/// protected endpoint: an origin that status reports as not allowed is refused
/// as such, and one it reports as allowed is never refused for its origin.
pub proof fn law_status_origin_matches_auth(c: ConnectorConfig, origin: Seq<char>, token: Seq<char>)
    ensures
        origin_accepted(c, origin) <==> auth_verdict(c, origin, token) != Err::<(), ApiError>(
            ApiError::OriginRejected,
        ),
{
}

/// The pairing status reads approved exactly when a pairing token is stored.
pub proof fn law_pair_status_approved_iff_paired(c: ConnectorConfig, waiting: bool)
    ensures
        (pair_status_of(c, waiting) is Approved) <==> paired(c),
        !paired(c) ==> (pair_status_of(c, waiting) is Pending <==> waiting),
{
}

/// The first drawer command is never rate limited and its time is recorded; a
/// later one is refused, leaving the recorded time as it was, exactly when it
/// comes within one second of the last accepted one, and accepted and recorded
/// otherwise.
pub proof fn law_rate_limit_window(
    now: u128,
    last: Option<u128>,
    after: Option<u128>,
    r: Result<(), ApiError>,
)
    requires
        rate_limited_at(now, last, after, r),
    ensures
        last is None ==> r is Ok && after == Some(now),
        last matches Some(p) && nanos_after(now, p) < rate_window_nanos() ==> r == Err::<(), ApiError>(
            ApiError::RateLimited,
        ) && after == last,
        last matches Some(p) && nanos_after(now, p) >= rate_window_nanos() ==> r is Ok && after
            == Some(now),
{
}

/// The verdict on a diagnostics run is the worst verdict among its checks, so a
/// run passes only when every check passes.
pub proof fn law_overall_is_worst_check(
    mode: ConnectorRunMode,
    ip: Seq<char>,
    paired: bool,
    setup_complete: bool,
    hardware_verified: bool,
    probe: Option<PortProbe>,
)
    requires
        probe is Some <==> ip.len() > 0,
    ensures
        overall_verdict(mode, ip, paired, setup_complete, hardware_verified, probe)
            == worst_verdict(
            diagnostic_checks(mode, ip, paired, setup_complete, hardware_verified, probe),
        ),
{
    reveal_with_fuel(worst_verdict, 8);
}

/// The server always accepts the two local development origins, besides every
/// configured one.
pub proof fn law_server_origins_cover_local(configured_origins: Seq<Seq<char>>)
    ensures
        ({
            let r = with_origin(
                with_origin(configured_origins, "http://localhost:3000"@),
                "http://localhost:3001"@,
            );
            &&& r.contains("http://localhost:3000"@)
            &&& r.contains("http://localhost:3001"@)
            &&& forall|o: Seq<char>| configured_origins.contains(o) ==> #[trigger] r.contains(o)
        }),
{
    let once = with_origin(configured_origins, "http://localhost:3000"@);
    let r = with_origin(once, "http://localhost:3001"@);
    if !configured_origins.contains("http://localhost:3000"@) {
        assert(once[once.len() - 1] == "http://localhost:3000"@);
    }
    assert(once.contains("http://localhost:3000"@));
    if !once.contains("http://localhost:3001"@) {
        assert(r[r.len() - 1] == "http://localhost:3001"@);
        assert(r[once.len() as int - 1] == once[once.len() - 1]);
    }
    assert forall|o: Seq<char>| configured_origins.contains(o) implies #[trigger] r.contains(o) by {
        let k = choose|k: int| 0 <= k < configured_origins.len() && configured_origins[k] == o;
        assert(once[k] == o);
        assert(r[k] == o);
    }
    assert forall|o: Seq<char>| once.contains(o) implies r.contains(o) by {
        let k = choose|k: int| 0 <= k < once.len() && once[k] == o;
        assert(r[k] == o);
    }
}


/// A presented token authorises a request from an accepted origin to a paired
/// connector exactly when it equals the stored token character for character;
/// any other non-empty token is refused as invalid.
pub proof fn law_token_must_match(c: ConnectorConfig, origin: Seq<char>, token: Seq<char>)
    requires
        origin_accepted(c, origin),
        paired(c),
        token.len() > 0,
    ensures
        auth_verdict(c, origin, token) is Ok <==> token == c.pairing_token@,
        token != c.pairing_token@ ==> auth_verdict(c, origin, token) == Err::<(), ApiError>(
            ApiError::InvalidToken,
        ),
{
}

/// Diagnostics on unverified hardware: the `hardware_verified` check warns, and
/// the run never passes; it warns when nothing else fails.
pub proof fn law_unverified_hardware_warns(
    mode: ConnectorRunMode,
    ip: Seq<char>,
    paired: bool,
    setup_complete: bool,
    probe: Option<PortProbe>,
)
    requires
        probe is Some <==> ip.len() > 0,
    ensures
        exists|i: int|
            #![trigger diagnostic_checks(mode, ip, paired, setup_complete, false, probe)[i]]
            0 <= i < diagnostic_checks(mode, ip, paired, setup_complete, false, probe).len()
                && diagnostic_checks(mode, ip, paired, setup_complete, false, probe)[i].0
                == "hardware_verified"@ && diagnostic_checks(
                mode,
                ip,
                paired,
                setup_complete,
                false,
                probe,
            )[i].1 == Verdict::Warning,
        overall_verdict(mode, ip, paired, setup_complete, false, probe) != Verdict::Passed,
        paired && ip.len() > 0 && probe == Some(PortProbe::Open) ==> overall_verdict(
            mode,
            ip,
            paired,
            setup_complete,
            false,
            probe,
        ) == Verdict::Warning,
{
    let checks = diagnostic_checks(mode, ip, paired, setup_complete, false, probe);
    let k: int = if probe is Some { 5 } else { 4 };
    assert(checks[k] == hardware_check(false));
}

/// A diagnostics run passes exactly when the terminal is paired, setup is
/// complete, a printer address is set and its port is open, the hardware is
/// verified and the connector is live; it fails when unpaired, without a
/// printer address or with the port not open.
pub proof fn law_diagnostics_pass_exactly_when_ready(
    mode: ConnectorRunMode,
    ip: Seq<char>,
    paired: bool,
    setup_complete: bool,
    hardware_verified: bool,
    probe: Option<PortProbe>,
)
    requires
        probe is Some <==> ip.len() > 0,
    ensures
        overall_verdict(mode, ip, paired, setup_complete, hardware_verified, probe)
            == Verdict::Passed <==> (paired && setup_complete && ip.len() > 0 && probe == Some(
            PortProbe::Open,
        ) && hardware_verified && mode == ConnectorRunMode::Live),
        !paired || ip.len() == 0 || probe != Some(PortProbe::Open) ==> overall_verdict(
            mode,
            ip,
            paired,
            setup_complete,
            hardware_verified,
            probe,
        ) == Verdict::Failed,
{
}

/// Finishing setup marks it complete; without hardware verification it leaves
/// the hardware state, its time and its source as they were.
pub proof fn law_setup_without_hardware_keeps_hardware(
    before: ConnectorConfig,
    after: ConnectorConfig,
    now: nat,
)
    requires
        after_setup(before, after, false, now),
    ensures
        after.setup_complete,
        after.hardware_verified == before.hardware_verified,
        after.last_hardware_verified_at == before.last_hardware_verified_at,
        after.hardware_verification_source == before.hardware_verification_source,
{
}

} // verus!
