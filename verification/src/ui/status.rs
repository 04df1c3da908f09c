//! The status bar.

use vstd::prelude::*;

use crate::app::Status;

verus! {

/// The word the status bar shows for each state of the front end.
pub open spec fn spec_status_text(status: Status) -> Seq<char> {
    match status {
        Status::Idle => "Idle"@,
        Status::Streaming => "Streaming"@,
    }
}

/// The word shown at the right of the status bar.
pub fn status_text(status: &Status) -> (res: &'static str)
    ensures
        res@ == spec_status_text(*status),
{
    match status {
        Status::Idle => "Idle",
        Status::Streaming => "Streaming",
    }
}

/// The name shown at the left of the status bar.
pub fn title() -> (res: &'static str)
    ensures
        res@ == "OwnCode"@,
{
    "OwnCode"
}

} // verus!
