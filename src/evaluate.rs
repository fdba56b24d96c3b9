use vstd::prelude::*;

use crate::model::{Decision, EvaluatePolicyRequest, EvaluatePolicyResponse, OpStatus, ReasonCode};

verus! {

/// The one risk level that asks for approval; any other value does not.
pub open spec fn is_high_risk(risk_level: Seq<char>) -> bool {
    risk_level == "high"@
}

/// Whether `risk_level` is the high risk level.
pub fn high_risk(risk_level: &String) -> (r: bool)
    ensures
        r == is_high_risk(risk_level@),
{
    let high = String::from_str("high");
    *risk_level == high
}

/// Decides whether a run may proceed outright or needs an approval token,
/// and echoes the policy snapshot hash that later stages are bound to.
pub fn evaluate_policy(request: EvaluatePolicyRequest) -> (r: EvaluatePolicyResponse)
    ensures
        r.wf(),
        r.status == OpStatus::Success,
        r.policy_snapshot_hash@ == request.policy_snapshot_hash@,
        is_high_risk(request.risk_level@) ==> {
            &&& r.approval_required
            &&& r.decision == Decision::ApproveRequired
            &&& r.reason_code == Some(ReasonCode::ApprovalRequiredHighRisk)
        },
        !is_high_risk(request.risk_level@) ==> {
            &&& !r.approval_required
            &&& r.decision == Decision::Allow
            &&& r.reason_code.is_none()
        },
{
    let approval_required = high_risk(&request.risk_level);
    let decision = if approval_required {
        Decision::ApproveRequired
    } else {
        Decision::Allow
    };
    let reason_code = if approval_required {
        Some(ReasonCode::ApprovalRequiredHighRisk)
    } else {
        None
    };
    EvaluatePolicyResponse {
        status: OpStatus::Success,
        decision,
        approval_required,
        policy_snapshot_hash: request.policy_snapshot_hash,
        reason_code,
    }
}

} // verus!
