//! Change notifications, run outcomes, and the classification that
//! decides which notifications trigger a command dispatch.

use vstd::prelude::*;

verus! {

/// One coalesced change notification from the watch source. The payload is
/// the affected path. Signals that carry no dispatch-relevant change (error
/// reports, rescan hints, and the like) are folded into `Other`.
#[derive(Debug, PartialEq, Eq)]
pub enum Notification {
    NoticeWrite(String),
    NoticeRemove(String),
    Create(String),
    Write(String),
    Remove(String),
    Rename(String, String),
    Other,
}

/// The outcome of one command dispatch: `Success` when the process was
/// spawned and ran to completion (its exit code is deliberately not
/// inspected), `Failure` when it could not be spawned or run at all.
#[derive(Debug, Clone, Copy, PartialEq, Eq, Structural)]
pub enum Outcome {
    Success,
    Failure,
}

/// A notification qualifies for dispatch exactly when it reports a
/// write, removal, creation or rename; everything else is ignored.
pub open spec fn spec_qualifies(n: Notification) -> bool {
    match n {
        Notification::NoticeWrite(_) => true,
        Notification::NoticeRemove(_) => true,
        Notification::Create(_) => true,
        Notification::Write(_) => true,
        Notification::Remove(_) => true,
        Notification::Rename(_, _) => true,
        Notification::Other => false,
    }
}

/// Decide whether a notification should trigger a dispatch.
pub fn qualifies(n: &Notification) -> (r: bool)
    ensures
        r == spec_qualifies(*n),
{
    match n {
        Notification::Other => false,
        _ => true,
    }
}

/// The user-visible line reported for a successful dispatch.
pub open spec fn spec_success_message() -> Seq<char> {
    "run successful"@
}

/// The user-visible line reported for a failed dispatch.
pub open spec fn spec_failure_message() -> Seq<char> {
    "failed"@
}

/// The line to print for a dispatch outcome.
pub fn outcome_message(o: &Outcome) -> (r: &'static str)
    ensures
        *o is Success ==> r@ == spec_success_message(),
        *o is Failure ==> r@ == spec_failure_message(),
{
    match o {
        Outcome::Success => "run successful",
        Outcome::Failure => "failed",
    }
}

} // verus!
