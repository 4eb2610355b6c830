//! Remote client outcome classification.
//!
//! The remote service answers a target-creation request and a batch-execution
//! request with an HTTP status and a body. The library classifies the status
//! into a per-task outcome: creation treats "created" and "already exists" as
//! equally successful (idempotent create), execution succeeds only on the
//! plain success status; every other status is a failure carrying the
//! response body as diagnostic text.

use vstd::prelude::*;
use crate::Outcome;

verus! {

/// The status of a plain success response.
pub const STATUS_OK: u16 = 200;

/// The status the service answers a creation request with when the target
/// already exists.
pub const STATUS_ALREADY_EXISTS: u16 = 400;

/// A creation response that counts as success: created, or already exists.
pub open spec fn create_success_status(status: u16) -> bool {
    status == STATUS_OK || status == STATUS_ALREADY_EXISTS
}

/// An execution response that counts as success.
pub open spec fn execute_success_status(status: u16) -> bool {
    status == STATUS_OK
}

/// The outcome of a target-creation request answered with `status` and
/// `body`.
pub open spec fn create_outcome(status: u16, body: String) -> Outcome {
    if create_success_status(status) {
        Outcome::Success
    } else {
        Outcome::Failure(body)
    }
}

/// The outcome of a batch-execution request answered with `status` and
/// `body`.
pub open spec fn execute_outcome(status: u16, body: String) -> Outcome {
    if execute_success_status(status) {
        Outcome::Success
    } else {
        Outcome::Failure(body)
    }
}

/// Classifies the response to a target-creation request. Created and
/// already-exists are both success, so the call may be repeated without
/// coordination; any other status fails with the body as diagnostic text.
pub fn ensure_target_outcome(status: u16, body: String) -> (r: Outcome)
    ensures
        r == create_outcome(status, body),
{
    if status == STATUS_OK || status == STATUS_ALREADY_EXISTS {
        Outcome::Success
    } else {
        Outcome::Failure(body)
    }
}

/// Classifies the response to a batch-execution request: success is silent,
/// any other status fails with the body as diagnostic text.
pub fn execute_batch_outcome(status: u16, body: String) -> (r: Outcome)
    ensures
        r == execute_outcome(status, body),
{
    if status == STATUS_OK {
        Outcome::Success
    } else {
        Outcome::Failure(body)
    }
}

/// Idempotent create: however a repeated creation of a target is answered —
/// created afresh, or refused because the target already exists — the
/// classified outcome is success, so the second call never fails for
/// already-exists reasons.
pub proof fn lemma_ensure_target_idempotent(status: u16, body: String)
    requires
        status == STATUS_OK || status == STATUS_ALREADY_EXISTS,
    ensures
        create_outcome(status, body) is Success,
{
}

} // verus!
