//! Raw completion codes reported by the transport, and how they are read.

use vstd::prelude::*;

verus! {

/// The one completion code with which the transport reports success.
pub const STATUS_SUCCEEDED: i32 = 3000;

/// True exactly for the code that signals a completed, successful operation.
pub open spec fn is_success_code(code: i32) -> bool {
    code == STATUS_SUCCEEDED
}

/// Asks the framework whether a completion code means success.
///
/// Trusted: calls `maa_framework::MaaStatus::is_success` on the code. The
/// framework compares the code with its `SUCCEEDED` constant, whose value is
/// 3000, so the answer is `true` for that code and `false` for every other.
#[verifier::external_body]
pub(crate) fn framework_reports_success(code: i32) -> (ok: bool)
    ensures
        ok == is_success_code(code),
{
    maa_framework::MaaStatus(code).is_success()
}

} // verus!
