use vstd::prelude::*;

use crate::model::{ExecuteRunRequest, ExecuteRunResponse, ExecutionResult, ReasonCode, RunStatus};

verus! {

/// A token was supplied, and it was issued against another policy snapshot
/// than the one the run is governed by now.
pub open spec fn snapshot_mismatch(request: &ExecuteRunRequest) -> bool {
    match request.approval_token {
        Some(token) => token.policy_snapshot_hash@ != request.policy_snapshot_hash@,
        None => false,
    }
}

/// An absent switch counts as `false`.
pub open spec fn forced_to_fail(request: &ExecuteRunRequest) -> bool {
    request.force_fail == Some(true)
}

pub open spec fn failed_with(reason: ReasonCode) -> ExecutionResult {
    ExecutionResult { status: RunStatus::Failed, reason_code: Some(reason) }
}

pub open spec fn succeeded() -> ExecutionResult {
    ExecutionResult { status: RunStatus::Succeeded, reason_code: None }
}

/// The snapshot check first, then the execution itself.
pub open spec fn run_outcome(request: &ExecuteRunRequest) -> ExecutionResult {
    if snapshot_mismatch(request) {
        failed_with(ReasonCode::PolicySnapshotMismatch)
    } else if forced_to_fail(request) {
        failed_with(ReasonCode::ExecutionFailed)
    } else {
        succeeded()
    }
}

/// Checks a supplied approval token against the run's current policy
/// snapshot and, past that gate, reports the execution's outcome. A request
/// without a token passes the snapshot check.
pub fn execute_run(request: ExecuteRunRequest) -> (r: ExecuteRunResponse)
    ensures
        r.execution_result == run_outcome(&request),
        r.execution_result.wf(),
        snapshot_mismatch(&request) ==> r.execution_result == failed_with(
            ReasonCode::PolicySnapshotMismatch,
        ),
        !snapshot_mismatch(&request) && forced_to_fail(&request) ==> r.execution_result
            == failed_with(ReasonCode::ExecutionFailed),
        !snapshot_mismatch(&request) && !forced_to_fail(&request) ==> r.execution_result
            == succeeded(),
{
    if let Some(token) = &request.approval_token {
        if token.policy_snapshot_hash != request.policy_snapshot_hash {
            return ExecuteRunResponse {
                execution_result: ExecutionResult {
                    status: RunStatus::Failed,
                    reason_code: Some(ReasonCode::PolicySnapshotMismatch),
                },
            };
        }
    }
    let failed = match request.force_fail {
        Some(flag) => flag,
        None => false,
    };
    let execution_result = if failed {
        ExecutionResult { status: RunStatus::Failed, reason_code: Some(ReasonCode::ExecutionFailed) }
    } else {
        ExecutionResult { status: RunStatus::Succeeded, reason_code: None }
    };
    ExecuteRunResponse { execution_result }
}

} // verus!
