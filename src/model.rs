use vstd::prelude::*;

verus! {

/// Outcome of a whole operation.
#[derive(PartialEq, Eq, Structural, Clone, Copy, Debug)]
pub enum OpStatus {
    Success,
    Failure,
}

/// What the policy evaluation decided for a run.
#[derive(PartialEq, Eq, Structural, Clone, Copy, Debug)]
pub enum Decision {
    Allow,
    ApproveRequired,
}

/// Outcome of an execution attempt.
#[derive(PartialEq, Eq, Structural, Clone, Copy, Debug)]
pub enum RunStatus {
    Succeeded,
    Failed,
}

/// The closed vocabulary of machine-readable reasons.
#[derive(PartialEq, Eq, Structural, Clone, Copy, Debug)]
pub enum ReasonCode {
    ApprovalRequiredHighRisk,
    PolicySnapshotMismatch,
    ExecutionFailed,
}

impl OpStatus {
    pub open spec fn text(self) -> Seq<char> {
        match self {
            OpStatus::Success => "ok"@,
            OpStatus::Failure => "error"@,
        }
    }

    /// The wire text of this status.
    pub fn as_str(&self) -> (r: &'static str)
        ensures
            r@ == self.text(),
    {
        match self {
            OpStatus::Success => "ok",
            OpStatus::Failure => "error",
        }
    }
}

impl Decision {
    pub open spec fn text(self) -> Seq<char> {
        match self {
            Decision::Allow => "allow"@,
            Decision::ApproveRequired => "approve_required"@,
        }
    }

    /// The wire text of this decision.
    pub fn as_str(&self) -> (r: &'static str)
        ensures
            r@ == self.text(),
    {
        match self {
            Decision::Allow => "allow",
            Decision::ApproveRequired => "approve_required",
        }
    }
}

impl RunStatus {
    pub open spec fn text(self) -> Seq<char> {
        match self {
            RunStatus::Succeeded => "succeeded"@,
            RunStatus::Failed => "failed"@,
        }
    }

    /// The wire text of this outcome.
    pub fn as_str(&self) -> (r: &'static str)
        ensures
            r@ == self.text(),
    {
        match self {
            RunStatus::Succeeded => "succeeded",
            RunStatus::Failed => "failed",
        }
    }
}

impl ReasonCode {
    pub open spec fn text(self) -> Seq<char> {
        match self {
            ReasonCode::ApprovalRequiredHighRisk => "APPROVAL_REQUIRED_HIGH_RISK"@,
            ReasonCode::PolicySnapshotMismatch => "POLICY_SNAPSHOT_MISMATCH"@,
            ReasonCode::ExecutionFailed => "EXECUTION_FAILED"@,
        }
    }

    /// The wire text of this reason.
    pub fn as_str(&self) -> (r: &'static str)
        ensures
            r@ == self.text(),
    {
        match self {
            ReasonCode::ApprovalRequiredHighRisk => "APPROVAL_REQUIRED_HIGH_RISK",
            ReasonCode::PolicySnapshotMismatch => "POLICY_SNAPSHOT_MISMATCH",
            ReasonCode::ExecutionFailed => "EXECUTION_FAILED",
        }
    }
}

/// Request to evaluate the policy that governs one run.
pub struct EvaluatePolicyRequest {
    pub tenant_id: String,
    pub correlation_id: String,
    pub actor: String,
    pub run_id: String,
    pub policy_snapshot_hash: String,
    pub risk_level: String,
}

/// The policy decision for one run, anchored to a policy snapshot.
pub struct EvaluatePolicyResponse {
    pub status: OpStatus,
    pub decision: Decision,
    pub approval_required: bool,
    pub policy_snapshot_hash: String,
    pub reason_code: Option<ReasonCode>,
}

impl EvaluatePolicyResponse {
    /// Approval is required exactly when the decision says so, and exactly
    /// then a reason is given.
    pub open spec fn wf(&self) -> bool {
        &&& self.approval_required == (self.decision == Decision::ApproveRequired)
        &&& self.approval_required == self.reason_code.is_some()
    }
}

/// Request to issue an approval token for one run.
pub struct IssueApprovalTokenRequest {
    pub tenant_id: String,
    pub correlation_id: String,
    pub actor: String,
    pub run_id: String,
    pub policy_snapshot_hash: String,
}

/// An approval valid only against the policy snapshot it names.
pub struct ApprovalToken {
    pub token_id: String,
    pub policy_snapshot_hash: String,
    pub issued_at: String,
}

/// An issued token, in an `ok` envelope.
pub struct IssueApprovalTokenResponse {
    pub status: OpStatus,
    pub token: ApprovalToken,
}

/// Request to execute one run, with an optional approval token and an
/// optional switch that forces the execution to fail.
pub struct ExecuteRunRequest {
    pub tenant_id: String,
    pub correlation_id: String,
    pub actor: String,
    pub run_id: String,
    pub policy_snapshot_hash: String,
    pub approval_token: Option<ApprovalToken>,
    pub force_fail: Option<bool>,
}

/// Outcome of an execution attempt; a failure carries its reason.
#[derive(PartialEq, Eq, Structural, Clone, Copy, Debug)]
pub struct ExecutionResult {
    pub status: RunStatus,
    pub reason_code: Option<ReasonCode>,
}

impl ExecutionResult {
    /// Success exactly when no reason is given.
    pub open spec fn wf(&self) -> bool {
        (self.status == RunStatus::Succeeded) == self.reason_code.is_none()
    }
}

/// The response to an execution request.
pub struct ExecuteRunResponse {
    pub execution_result: ExecutionResult,
}

} // verus!
