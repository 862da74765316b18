use vstd::prelude::*;

verus! {

/// The renderer's "pointer left" notification.
pub const MSG_MOUSELEAVE: u32 = 0x02A3;
/// The no-op message that a suppressed notification becomes.
pub const MSG_NULL: u32 = 0x0000;
/// Marker property on the monitored surface.
pub const TARGET_MARKER: &'static str = "MWP_T";
/// Marker property set just before an intended leave notification.
pub const EXPLICIT_LEAVE_MARKER: &'static str = "MWP_E";

#[derive(Clone, Copy, Debug, PartialEq, Eq, Structural)]
pub enum LeaveVerdict {
    /// Deliver the message unchanged.
    Deliver,
    /// Deliver it, and remove the "intended" marker it consumed.
    DeliverAndConsumeMarker,
    /// Replace it with the no-op message.
    Suppress,
}

/// Decides the fate of a message about to reach the renderer's window: a leave notification
/// for the monitored surface is suppressed unless it was marked as intended.
pub fn leave_verdict(message: u32, target_marked: bool, intended_marked: bool) -> (r: LeaveVerdict)
    ensures
        (message != MSG_MOUSELEAVE || !target_marked) ==> r == LeaveVerdict::Deliver,
        (message == MSG_MOUSELEAVE && target_marked && intended_marked) ==> r
            == LeaveVerdict::DeliverAndConsumeMarker,
        (message == MSG_MOUSELEAVE && target_marked && !intended_marked) ==> r == LeaveVerdict::Suppress,
{
    if message != MSG_MOUSELEAVE || !target_marked {
        LeaveVerdict::Deliver
    } else if intended_marked {
        LeaveVerdict::DeliverAndConsumeMarker
    } else {
        LeaveVerdict::Suppress
    }
}

} // verus!
