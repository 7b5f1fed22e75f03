use crate::record::{general_record, general_record_spec, startup_record, startup_record_spec};
use crate::transport::{
    deliver, delivered_over_session, outcome_of, outcome_spec, Delivery, Outcome,
};
use vstd::prelude::*;

verus! {

/// Status returned when the record reached the service.
pub const DELIVERED_STATUS: &'static str = "ok";

/// Status returned when it did not.
pub const NOT_DELIVERED_STATUS: &'static str = "not ok";

/// Acknowledgment of `set_mask`.
pub const SET_MASK_STATUS: &'static str = "setMask";

/// Acknowledgment of `close`.
pub const CLOSE_STATUS: &'static str = "close";

pub open spec fn status_spec(outcome: Outcome) -> Seq<char> {
    match outcome {
        Outcome::Delivered => DELIVERED_STATUS@,
        Outcome::NotDelivered => NOT_DELIVERED_STATUS@,
    }
}

/// The status text that stands for an outcome at the boundary.
pub fn status_text(outcome: Outcome) -> (r: String)
    ensures
        r@ == status_spec(outcome),
{
    match outcome {
        Outcome::Delivered => DELIVERED_STATUS.to_owned(),
        Outcome::NotDelivered => NOT_DELIVERED_STATUS.to_owned(),
    }
}

impl Delivery {
    /// The status text reported for this delivery.
    pub fn status(&self) -> (r: String)
        ensures
            r@ == status_spec(outcome_spec(self.attempt)),
    {
        status_text(outcome_of(&self.attempt))
    }
}

/// Sends `message` under `process_name` at debug severity, pid 0, over a
/// fresh session: one open under that identity and, if it opened, one debug
/// write of `message`.
pub fn log(message: String, process_name: String) -> (d: Delivery)
    ensures
        d.record@ == general_record_spec(message@, process_name@),
        delivered_over_session(general_record_spec(message@, process_name@), d),
{
    deliver(general_record(message, process_name))
}

/// Sends the startup announcement for the process with id `pid` at error
/// severity over a fresh session: one open under the fixed process name and
/// `pid` and, if it opened, one error write of the fixed text.
pub fn init(pid: u32) -> (d: Delivery)
    ensures
        d.record@ == startup_record_spec(pid),
        delivered_over_session(startup_record_spec(pid), d),
{
    deliver(startup_record(pid))
}

/// Acknowledges a mask request; no filtering state exists and no session is opened.
pub fn set_mask() -> (r: String)
    ensures
        r@ == SET_MASK_STATUS@,
{
    SET_MASK_STATUS.to_owned()
}

/// Acknowledges a close request; no session outlives a call, so none is closed.
pub fn close() -> (r: String)
    ensures
        r@ == CLOSE_STATUS@,
{
    CLOSE_STATUS.to_owned()
}

} // verus!
