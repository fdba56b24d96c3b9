//! Properties of the three stages taken together: a run's policy snapshot
//! hash, carried unchanged from evaluation through approval to execution,
//! is what binds a token to the policy it was granted under.
use vstd::prelude::*;

use crate::approve::issued_for;
use crate::execute::{failed_with, forced_to_fail, run_outcome, snapshot_mismatch, succeeded};
use crate::model::{
    EvaluatePolicyRequest,
    EvaluatePolicyResponse,
    ExecuteRunRequest,
    IssueApprovalTokenRequest,
    IssueApprovalTokenResponse,
    ReasonCode,
};

verus! {

/// Two issuances for the same run give the same token id, and each token
/// names the policy snapshot of its own request.
pub proof fn lemma_token_shape(
    first_request: &IssueApprovalTokenRequest,
    first: &IssueApprovalTokenResponse,
    second_request: &IssueApprovalTokenRequest,
    second: &IssueApprovalTokenResponse,
)
    requires
        issued_for(first_request, first),
        issued_for(second_request, second),
        first_request.run_id@ == second_request.run_id@,
    ensures
        first.token.token_id@ == second.token.token_id@,
        first.token.policy_snapshot_hash@ == first_request.policy_snapshot_hash@,
        second.token.policy_snapshot_hash@ == second_request.policy_snapshot_hash@,
{
}

/// A token issued against one snapshot never authorises a run governed by
/// another: the run fails with a snapshot mismatch, whether or not it was
/// forced to fail.
pub proof fn lemma_stale_token_rejected(
    issue_request: &IssueApprovalTokenRequest,
    issued: &IssueApprovalTokenResponse,
    run: &ExecuteRunRequest,
)
    requires
        issued_for(issue_request, issued),
        run.approval_token == Some(issued.token),
        run.policy_snapshot_hash@ != issue_request.policy_snapshot_hash@,
    ensures
        snapshot_mismatch(run),
        run_outcome(run) == failed_with(ReasonCode::PolicySnapshotMismatch),
{
}

/// When the snapshot hash that evaluation echoed is carried unchanged into
/// the approval and into the execution, the issued token is accepted:
/// the run fails only where it was forced to, and succeeds otherwise.
pub proof fn lemma_threaded_snapshot_accepted(
    evaluate_request: &EvaluatePolicyRequest,
    evaluated: &EvaluatePolicyResponse,
    issue_request: &IssueApprovalTokenRequest,
    issued: &IssueApprovalTokenResponse,
    run: &ExecuteRunRequest,
)
    requires
        evaluated.policy_snapshot_hash@ == evaluate_request.policy_snapshot_hash@,
        issue_request.policy_snapshot_hash@ == evaluated.policy_snapshot_hash@,
        issued_for(issue_request, issued),
        run.policy_snapshot_hash@ == evaluated.policy_snapshot_hash@,
        run.approval_token == Some(issued.token),
    ensures
        !snapshot_mismatch(run),
        forced_to_fail(run) ==> run_outcome(run) == failed_with(ReasonCode::ExecutionFailed),
        !forced_to_fail(run) ==> run_outcome(run) == succeeded(),
{
}

} // verus!
