//! The state guard: decides whether an operation is permissible given the
//! payment's current status. Pure; called inside GetTracker before any
//! mutation is attempted.

use vstd::prelude::*;

use crate::enums::IntentStatus;
use crate::errors::{ApiErrorResponse, SpecApiError};

verus! {

/// Succeeds exactly when `current` is not in the set of statuses the calling
/// operation forbids; otherwise fails with an error naming the operation and
/// the offending status.
pub fn check_transition(
    current: IntentStatus,
    disallowed: &[IntentStatus],
    operation: &str,
) -> (r: Result<(), ApiErrorResponse>)
    ensures
        r is Ok <==> !disallowed@.contains(current),
        r is Err ==> r->Err_0@ == (SpecApiError::InvalidStatusTransition {
            operation: operation@,
            status: current,
        }),
{
    let n = disallowed.len();
    for i in 0..n
        invariant
            n == disallowed@.len(),
            forall|k: int| 0 <= k < i ==> disallowed@[k] != current,
    {
        if disallowed[i] == current {
            return Err(
                ApiErrorResponse::InvalidStatusTransition {
                    operation: operation.to_owned(),
                    status: current,
                },
            );
        }
    }
    Ok(())
}

} // verus!
