//! Health state and the answers of the liveness and readiness probes.
use std::sync::atomic::AtomicBool;
use std::sync::atomic::Ordering;
use vstd::prelude::*;

verus! {

/// Shared, lock-free health state.
pub struct HealthState {
    ready: AtomicBool,
}

impl HealthState {
    /// A health state that is not ready yet.
    pub fn new() -> Self {
        Self { ready: AtomicBool::new(false) }
    }

    /// Marks the service as ready (or not).
    pub fn set_ready(&self, val: bool) {
        self.ready.store(val, Ordering::Release);
    }

    /// Whether the service is ready.
    pub fn is_ready(&self) -> bool {
        self.ready.load(Ordering::Acquire)
    }
}


/// HTTP status of a probe answer when the probe succeeds.
pub const STATUS_OK: u16 = 200;

/// HTTP status of the readiness probe while the service is not ready.
pub const STATUS_SERVICE_UNAVAILABLE: u16 = 503;

/// The body of a probe answer.
pub struct HealthResponse {
    pub status: &'static str,
    pub version: &'static str,
    pub ready: bool,
}

/// The answer of the liveness probe (`/healthz`): always `200 OK`, with
/// status `ok` and `ready` set.
pub fn liveness_response(version: &'static str) -> (r: (u16, HealthResponse))
    ensures
        r.0 == STATUS_OK,
        r.1.status@ == "ok"@,
        r.1.version == version,
        r.1.ready,
{
    (STATUS_OK, HealthResponse { status: "ok", version, ready: true })
}

/// The answer of the readiness probe (`/readyz`): `200` with status
/// `ready` when the service is ready, `503` with status `not_ready`
/// otherwise.
pub fn readiness_response(ready: bool, version: &'static str) -> (r: (u16, HealthResponse))
    ensures
        r.0 == (if ready {
            STATUS_OK
        } else {
            STATUS_SERVICE_UNAVAILABLE
        }),
        r.1.status@ == (if ready {
            "ready"@
        } else {
            "not_ready"@
        }),
        r.1.version == version,
        r.1.ready == ready,
{
    let status_code = if ready {
        STATUS_OK
    } else {
        STATUS_SERVICE_UNAVAILABLE
    };
    (
        status_code,
        HealthResponse {
            status: if ready {
                "ready"
            } else {
                "not_ready"
            },
            version,
            ready,
        },
    )
}

} // verus!
