use vstd::prelude::*;

verus! {

/// Why a request to the connector is refused.
#[derive(Clone, Copy, Debug, PartialEq, Eq, Structural)]
pub enum ApiError {
    OriginRejected,
    MissingToken,
    InvalidToken,
    NotPaired,
    RateLimited,
    PrinterIpMissing,
    HardwareNotVerified,
    SimulationOnly,
    DiagnosticOnly,
}

/// What the connector answers for a refused request.
pub struct ErrorReply {
    pub status: u16,
    pub result: &'static str,
    pub error_code: &'static str,
    pub message: &'static str,
    pub suggestion: &'static str,
}

/// The HTTP status of the answer to each refusal.
pub open spec fn error_status(e: ApiError) -> u16 {
    match e {
        ApiError::OriginRejected => 403,
        ApiError::MissingToken => 401,
        ApiError::InvalidToken => 401,
        ApiError::NotPaired => 401,
        ApiError::RateLimited => 429,
        ApiError::PrinterIpMissing => 422,
        ApiError::HardwareNotVerified => 412,
        ApiError::SimulationOnly => 200,
        ApiError::DiagnosticOnly => 200,
    }
}

/// The `result` field of the answer to each refusal.
pub open spec fn error_result(e: ApiError) -> Seq<char> {
    match e {
        ApiError::OriginRejected => "origin_rejected"@,
        ApiError::MissingToken => "missing_token"@,
        ApiError::InvalidToken => "invalid_token"@,
        ApiError::NotPaired => "not_paired"@,
        ApiError::RateLimited => "rate_limited"@,
        ApiError::PrinterIpMissing => "printer_ip_missing"@,
        ApiError::HardwareNotVerified => "hardware_not_verified"@,
        ApiError::SimulationOnly => "simulation_only"@,
        ApiError::DiagnosticOnly => "diagnostic_only"@,
    }
}

/// The `errorCode` field of the answer to each refusal.
pub open spec fn error_code(e: ApiError) -> Seq<char> {
    match e {
        ApiError::OriginRejected => "ORIGIN_REJECTED"@,
        ApiError::MissingToken => "MISSING_TOKEN"@,
        ApiError::InvalidToken => "INVALID_TOKEN"@,
        ApiError::NotPaired => "NOT_PAIRED"@,
        ApiError::RateLimited => "RATE_LIMITED"@,
        ApiError::PrinterIpMissing => "PRINTER_IP_MISSING"@,
        ApiError::HardwareNotVerified => "HARDWARE_NOT_VERIFIED"@,
        ApiError::SimulationOnly => "SIMULATION_ONLY"@,
        ApiError::DiagnosticOnly => "DIAGNOSTIC_ONLY"@,
    }
}

/// The human-readable message of the answer to each refusal.
pub open spec fn error_message(e: ApiError) -> Seq<char> {
    match e {
        ApiError::OriginRejected => "Request origin is not in the allowed list."@,
        ApiError::MissingToken => "x-connector-token header is required."@,
        ApiError::InvalidToken => "Connector token does not match."@,
        ApiError::NotPaired => "No pairing token is configured."@,
        ApiError::RateLimited => "Too many requests. Wait 1 second."@,
        ApiError::PrinterIpMissing => "Printer IP address is not configured."@,
        ApiError::HardwareNotVerified => "Hardware has not been verified. Open drawer manually."@,
        ApiError::SimulationOnly => "Simulation mode is enabled. Open drawer manually."@,
        ApiError::DiagnosticOnly => "Diagnostic mode is active. No bytes sent to printer."@,
    }
}

/// What the answer to each refusal suggests the user do.
pub open spec fn error_suggestion(e: ApiError) -> Seq<char> {
    match e {
        ApiError::OriginRejected => "Check Allowed Origin in the connector settings."@,
        ApiError::MissingToken => "Re-pair this terminal with the connector."@,
        ApiError::InvalidToken => "Re-pair this terminal with the connector."@,
        ApiError::NotPaired => "Complete the connector setup wizard."@,
        ApiError::RateLimited => "Do not retry automatically in live mode."@,
        ApiError::PrinterIpMissing => "Enter the printer IP in the connector Setup tab."@,
        ApiError::HardwareNotVerified => "Run the hardware verification step in Setup."@,
        ApiError::SimulationOnly => "Switch connector to Live mode to send real commands."@,
        ApiError::DiagnosticOnly => "Switch connector to Live mode to send real commands."@,
    }
}

impl ApiError {
    /// The answer the connector gives for this refusal.
    pub fn reply(&self) -> (r: ErrorReply)
        ensures
            r.status == error_status(*self),
            r.result@ == error_result(*self),
            r.error_code@ == error_code(*self),
            r.message@ == error_message(*self),
            r.suggestion@ == error_suggestion(*self),
    {
        match self {
            ApiError::OriginRejected => ErrorReply {
                status: 403,
                result: "origin_rejected",
                error_code: "ORIGIN_REJECTED",
                message: "Request origin is not in the allowed list.",
                suggestion: "Check Allowed Origin in the connector settings.",
            },
            ApiError::MissingToken => ErrorReply {
                status: 401,
                result: "missing_token",
                error_code: "MISSING_TOKEN",
                message: "x-connector-token header is required.",
                suggestion: "Re-pair this terminal with the connector.",
            },
            ApiError::InvalidToken => ErrorReply {
                status: 401,
                result: "invalid_token",
                error_code: "INVALID_TOKEN",
                message: "Connector token does not match.",
                suggestion: "Re-pair this terminal with the connector.",
            },
            ApiError::NotPaired => ErrorReply {
                status: 401,
                result: "not_paired",
                error_code: "NOT_PAIRED",
                message: "No pairing token is configured.",
                suggestion: "Complete the connector setup wizard.",
            },
            ApiError::RateLimited => ErrorReply {
                status: 429,
                result: "rate_limited",
                error_code: "RATE_LIMITED",
                message: "Too many requests. Wait 1 second.",
                suggestion: "Do not retry automatically in live mode.",
            },
            ApiError::PrinterIpMissing => ErrorReply {
                status: 422,
                result: "printer_ip_missing",
                error_code: "PRINTER_IP_MISSING",
                message: "Printer IP address is not configured.",
                suggestion: "Enter the printer IP in the connector Setup tab.",
            },
            ApiError::HardwareNotVerified => ErrorReply {
                status: 412,
                result: "hardware_not_verified",
                error_code: "HARDWARE_NOT_VERIFIED",
                message: "Hardware has not been verified. Open drawer manually.",
                suggestion: "Run the hardware verification step in Setup.",
            },
            ApiError::SimulationOnly => ErrorReply {
                status: 200,
                result: "simulation_only",
                error_code: "SIMULATION_ONLY",
                message: "Simulation mode is enabled. Open drawer manually.",
                suggestion: "Switch connector to Live mode to send real commands.",
            },
            ApiError::DiagnosticOnly => ErrorReply {
                status: 200,
                result: "diagnostic_only",
                error_code: "DIAGNOSTIC_ONLY",
                message: "Diagnostic mode is active. No bytes sent to printer.",
                suggestion: "Switch connector to Live mode to send real commands.",
            },
        }
    }
}

} // verus!
