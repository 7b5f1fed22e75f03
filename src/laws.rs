use crate::bridge::{status_spec, DELIVERED_STATUS, NOT_DELIVERED_STATUS};
use crate::record::{general_record_spec, startup_record_spec, Facility, RecordView, Severity};
use crate::transport::{
    attempt_spec, delivered_over_session, outcome_spec, session_acks, session_identity,
    session_writes, Delivery, Outcome,
};
use vstd::prelude::*;

verus! {

/// The status of a delivery is "ok" exactly when the session opened and the
/// write on it succeeded; a failed connection and a failed write both give
/// "not ok", whatever the error.
pub proof fn lemma_status_follows_session_results(
    r: Result<Result<(), syslog::Error>, syslog::Error>,
)
    ensures
        (status_spec(outcome_spec(attempt_spec(r))) == DELIVERED_STATUS@) == (r is Ok && r->Ok_0 is Ok),
        r is Ok && r->Ok_0 is Ok ==> outcome_spec(attempt_spec(r)) == Outcome::Delivered,
        r is Err ==> status_spec(outcome_spec(attempt_spec(r))) == NOT_DELIVERED_STATUS@,
        r is Ok && r->Ok_0 is Err ==> status_spec(outcome_spec(attempt_spec(r)))
            == NOT_DELIVERED_STATUS@,
{
    reveal_strlit("ok");
    reveal_strlit("not ok");
    assert(DELIVERED_STATUS@.len() != NOT_DELIVERED_STATUS@.len());
}

/// A general log call whose session opened and whose write the service took
/// reports "ok"; that session was opened as a user-level process with the
/// caller's process name, pid 0 and no hostname, and carried one debug write
/// of the caller's text.
pub proof fn lemma_log_delivered(message: Seq<char>, process_name: Seq<char>, d: Delivery)
    requires
        d.record@ == general_record_spec(message, process_name),
        delivered_over_session(general_record_spec(message, process_name), d),
        d.session@ is Some,
        session_acks(d.session@->Some_0) == seq![true],
    ensures
        d.attempt is Sent,
        session_identity(d.session@->Some_0) == (
            Facility::User,
            None::<Seq<char>>,
            process_name,
            0u32,
        ),
        session_writes(d.session@->Some_0) == seq![(Severity::Debug, message)],
        d.record@.hostname is None,
        outcome_spec(d.attempt) == Outcome::Delivered,
        status_spec(outcome_spec(d.attempt)) == DELIVERED_STATUS@,
{
}

/// A startup announcement whose session opened and whose write the service
/// took reports "ok"; that session was opened as a user-level process named
/// "node" with the given pid and no hostname, and carried one error write of
/// "hallo-world".
pub proof fn lemma_init_delivered(pid: u32, d: Delivery)
    requires
        d.record@ == startup_record_spec(pid),
        delivered_over_session(startup_record_spec(pid), d),
        d.session@ is Some,
        session_acks(d.session@->Some_0) == seq![true],
    ensures
        d.attempt is Sent,
        session_identity(d.session@->Some_0) == (
            Facility::User,
            None::<Seq<char>>,
            "node"@,
            pid,
        ),
        session_writes(d.session@->Some_0) == seq![(Severity::Error, "hallo-world"@)],
        d.record@.hostname is None,
        outcome_spec(d.attempt) == Outcome::Delivered,
        status_spec(outcome_spec(d.attempt)) == DELIVERED_STATUS@,
{
}

/// A delivery whose session did not open reports "not ok", and no session
/// exists to have been written on; the failure is not fatal.
pub proof fn lemma_unreachable_not_ok(record: RecordView, d: Delivery)
    requires
        delivered_over_session(record, d),
        d.session@ is None,
    ensures
        d.attempt is ConnectFailed,
        outcome_spec(d.attempt) == Outcome::NotDelivered,
        status_spec(outcome_spec(d.attempt)) == NOT_DELIVERED_STATUS@,
{
}

/// A delivery whose session opened but whose one write failed reports
/// "not ok", exactly as a failed connection does; the failure is not fatal.
pub proof fn lemma_write_failed_not_ok(record: RecordView, d: Delivery)
    requires
        delivered_over_session(record, d),
        d.session@ is Some,
        session_acks(d.session@->Some_0) == seq![false],
    ensures
        d.attempt is SendFailed,
        session_writes(d.session@->Some_0) == seq![(record.severity, record.message)],
        outcome_spec(d.attempt) == Outcome::NotDelivered,
        status_spec(outcome_spec(d.attempt)) == NOT_DELIVERED_STATUS@,
{
    assert(seq![false][0] != seq![true][0]);
}

/// The status of a call is fixed by its own session alone: two deliveries,
/// of any records, whose own sessions fared alike report alike.
pub proof fn lemma_outcome_depends_on_own_session(
    first_record: RecordView,
    first: Delivery,
    second_record: RecordView,
    second: Delivery,
)
    requires
        delivered_over_session(first_record, first),
        delivered_over_session(second_record, second),
        (first.session@ is Some && session_acks(first.session@->Some_0) == seq![true]) == (
        second.session@ is Some && session_acks(second.session@->Some_0) == seq![true]),
    ensures
        outcome_spec(first.attempt) == outcome_spec(second.attempt),
        status_spec(outcome_spec(first.attempt)) == status_spec(outcome_spec(second.attempt)),
{
}

} // verus!
