//! Liveness and readiness probes (unversioned, outside `/api/v1`).
//!
//! * `/health/live`  — process is up. Never touches dependencies, so a database
//!   outage does not make the orchestrator restart healthy pods.
//! * `/health/ready` — dependencies reachable; failing removes the instance
//!   from the load balancer.
use vstd::prelude::*;

verus! {

#[derive(Debug, Clone, Copy, PartialEq, Eq, Structural)]
pub enum CheckStatus {
    Available,
    Unavailable,
}

pub struct LivenessResponse {
    pub status: &'static str,
    pub version: &'static str,
}

#[derive(Debug, Clone, Copy, PartialEq, Eq, Structural)]
pub struct ReadinessResponse {
    pub status: CheckStatus,
    pub database: CheckStatus,
    pub redis: CheckStatus,
}

/// The liveness answer of a running process of version `version`.
pub fn liveness(version: &'static str) -> (r: LivenessResponse)
    ensures
        r.status@ == "ok"@,
        r.version@ == version@,
{
    LivenessResponse { status: "ok", version }
}

/// The readiness answer: ready (HTTP 200) only when both the database and Redis
/// answered; otherwise unavailable (HTTP 503), naming the failing checks.
pub fn readiness(database: CheckStatus, redis: CheckStatus) -> (r: (u16, ReadinessResponse))
    ensures
        r.1.database == database,
        r.1.redis == redis,
        r.1.status == (if database == CheckStatus::Available && redis == CheckStatus::Available {
            CheckStatus::Available
        } else {
            CheckStatus::Unavailable
        }),
        r.0 == (if r.1.status == CheckStatus::Available {
            200u16
        } else {
            503u16
        }),
{
    let status = if database == CheckStatus::Available && redis == CheckStatus::Available {
        CheckStatus::Available
    } else {
        CheckStatus::Unavailable
    };
    let code: u16 = match status {
        CheckStatus::Available => 200,
        CheckStatus::Unavailable => 503,
    };
    (code, ReadinessResponse { status, database, redis })
}

} // verus!
