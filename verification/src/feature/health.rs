use vstd::prelude::*;
use vstd::string::StringExecFns;

verus! {

/// The body of the health check.
pub struct ListTargetsResponse {
    pub status: String,
}

/// The health check's answer: status "ok".
pub fn list_targets() -> (res: ListTargetsResponse)
    ensures
        res.status@ == "ok"@,
{
    ListTargetsResponse { status: String::from_str("ok") }
}

} // verus!
