use vstd::prelude::*;

use crate::model::{ApprovalToken, IssueApprovalTokenRequest, IssueApprovalTokenResponse, OpStatus};

verus! {

/// The token id of a run: its run id behind a fixed prefix.
pub open spec fn token_id_for(run_id: Seq<char>) -> Seq<char> {
    "token_"@ + run_id
}

/// Derives the token id from the run id alone.
pub fn token_id(run_id: &String) -> (r: String)
    ensures
        r@ == token_id_for(run_id@),
{
    let mut id = String::from_str("token_");
    id.append(run_id.as_str());
    id
}

/// `response` is what issuing an approval for `request` gives, whatever the
/// time of issue.
pub open spec fn issued_for(
    request: &IssueApprovalTokenRequest,
    response: &IssueApprovalTokenResponse,
) -> bool {
    &&& response.status == OpStatus::Success
    &&& response.token.token_id@ == token_id_for(request.run_id@)
    &&& response.token.policy_snapshot_hash@ == request.policy_snapshot_hash@
}

/// Relies on chrono's `Utc::now` and `DateTime::to_rfc3339`: the current
/// wall-clock time as an RFC 3339 text with the UTC offset. Nothing is
/// promised of the value, which depends on the clock; `Utc::now` panics if
/// the system clock reads earlier than the Unix epoch.
#[verifier::external_body]
fn current_timestamp() -> (r: String) {
    chrono::Utc::now().to_rfc3339()
}

/// Issues the approval token of a run, stamped with `issued_at`.
pub fn issue_approval_token_at(request: IssueApprovalTokenRequest, issued_at: String) -> (r:
    IssueApprovalTokenResponse)
    ensures
        issued_for(&request, &r),
        r.token.issued_at@ == issued_at@,
{
    let token_id = token_id(&request.run_id);
    IssueApprovalTokenResponse {
        status: OpStatus::Success,
        token: ApprovalToken {
            token_id,
            policy_snapshot_hash: request.policy_snapshot_hash,
            issued_at,
        },
    }
}

/// Issues the approval token of a run, stamped with the current time. No
/// approver is checked: a well-formed request always gets its token.
pub fn issue_approval_token(request: IssueApprovalTokenRequest) -> (r: IssueApprovalTokenResponse)
    ensures
        issued_for(&request, &r),
{
    let issued_at = current_timestamp();
    issue_approval_token_at(request, issued_at)
}

} // verus!
