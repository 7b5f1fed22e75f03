use crate::record::{Facility, LogRecord, RecordView, Severity};
use syslog::{Formatter3164, Logger, LoggerBackend};
use vstd::prelude::*;

verus! {

/// An open session to the local syslog service that frames records per
/// RFC 3164. syslog's `Logger` is held in a private field: its declaration
/// carries a `std::io::Write` bound that Verus cannot take.
#[verifier::external_body]
pub struct Session {
    logger: Logger<LoggerBackend, Formatter3164>,
}

/// The writes requested on a session so far, in order: each one's severity
/// and message text, whether or not the service took it.
pub uninterp spec fn session_writes(session: Session) -> Seq<(Severity, Seq<char>)>;

/// The identity a session was opened with: facility, hostname (`None` lets
/// syslog use the local host's name), process name and pid.
pub uninterp spec fn session_identity(session: Session) -> SessionIdentity;

/// Whether each write requested on the session succeeded, in order.
pub uninterp spec fn session_acks(session: Session) -> Seq<bool>;

/// Facility, hostname, process name and pid, as a session carries them.
pub type SessionIdentity = (Facility, Option<Seq<char>>, Seq<char>, u32);

/// The identity under which `record` is to be sent.
pub open spec fn record_identity(record: RecordView) -> SessionIdentity {
    (record.facility, record.hostname, record.process_name, record.pid)
}

/// syslog's error, kept only as the cause shown to operators.
#[verifier::external_type_specification]
#[verifier::external_body]
pub struct ExSyslogError(syslog::Error);

/// Relies on syslog::unix: tries the local syslog sockets in turn and opens a
/// session whose identity is the record's facility, hostname, process name and
/// pid, with nothing written on it yet. Whether it opens depends on the
/// machine, so that is not promised.
#[verifier::external_body]
fn open_session(record: &LogRecord) -> (r: Result<Session, syslog::Error>)
    ensures
        r is Ok ==> session_identity(r->Ok_0) == record_identity(record@),
        r is Ok ==> session_writes(r->Ok_0) == Seq::<(Severity, Seq<char>)>::empty(),
        r is Ok ==> session_acks(r->Ok_0) == Seq::<bool>::empty(),
{
    let facility = match record.facility {
        Facility::User => syslog::Facility::LOG_USER,
    };
    let formatter = Formatter3164 {
        facility,
        hostname: record.hostname.clone(),
        process: record.process_name.clone(),
        pid: record.pid,
    };
    match syslog::unix(formatter) {
        Ok(logger) => Ok(Session { logger }),
        Err(e) => Err(e),
    }
}

/// Relies on syslog::Logger::debug: frames `message` at debug severity and
/// makes one write of it on the session; whether the write succeeds depends on
/// the machine.
#[verifier::external_body]
fn send_debug(session: &mut Session, message: &String) -> (r: Result<(), syslog::Error>)
    ensures
        session_identity(*final(session)) == session_identity(*old(session)),
        session_writes(*final(session)) == session_writes(*old(session)).push(
            (Severity::Debug, message@),
        ),
        session_acks(*final(session)) == session_acks(*old(session)).push(r is Ok),
{
    session.logger.debug(message.as_str())
}

/// Relies on syslog::Logger::err: frames `message` at error severity and
/// makes one write of it on the session; whether the write succeeds depends on
/// the machine.
#[verifier::external_body]
fn send_err(session: &mut Session, message: &String) -> (r: Result<(), syslog::Error>)
    ensures
        session_identity(*final(session)) == session_identity(*old(session)),
        session_writes(*final(session)) == session_writes(*old(session)).push(
            (Severity::Error, message@),
        ),
        session_acks(*final(session)) == session_acks(*old(session)).push(r is Ok),
{
    session.logger.err(message.as_str())
}

/// What happened to one delivery attempt.
#[derive(Debug)]
pub enum Attempt {
    /// The session opened and the record was written.
    Sent,
    /// No session could be opened (no service, permission denied, socket error).
    ConnectFailed(syslog::Error),
    /// A session opened but writing the record failed.
    SendFailed(syslog::Error),
}

/// The attempt that the result of opening a session and, where it opened, the
/// result of the write stand for.
pub open spec fn attempt_spec(r: Result<Result<(), syslog::Error>, syslog::Error>) -> Attempt {
    match r {
        Err(e) => Attempt::ConnectFailed(e),
        Ok(Ok(())) => Attempt::Sent,
        Ok(Err(e)) => Attempt::SendFailed(e),
    }
}

/// Folds the result of opening a session (`Err` when it did not open) and the
/// result of the write made on it into an attempt.
pub fn attempt_of(r: Result<Result<(), syslog::Error>, syslog::Error>) -> (a: Attempt)
    ensures
        a == attempt_spec(r),
        (a is Sent) == (r is Ok && r->Ok_0 is Ok),
        (a is ConnectFailed) == (r is Err),
        (a is SendFailed) == (r is Ok && r->Ok_0 is Err),
{
    match r {
        Err(e) => Attempt::ConnectFailed(e),
        Ok(Ok(())) => Attempt::Sent,
        Ok(Err(e)) => Attempt::SendFailed(e),
    }
}

/// The two-valued result that crosses the public boundary.
#[derive(PartialEq, Eq, Structural, Clone, Copy, Debug)]
pub enum Outcome {
    Delivered,
    NotDelivered,
}

/// A record is delivered exactly when it was written; any failure, while
/// connecting or while writing, folds into not-delivered.
pub open spec fn outcome_spec(attempt: Attempt) -> Outcome {
    match attempt {
        Attempt::Sent => Outcome::Delivered,
        _ => Outcome::NotDelivered,
    }
}

/// Reduces an attempt to the outcome reported to the caller.
pub fn outcome_of(attempt: &Attempt) -> (r: Outcome)
    ensures
        r == outcome_spec(*attempt),
{
    match attempt {
        Attempt::Sent => Outcome::Delivered,
        _ => Outcome::NotDelivered,
    }
}

/// Writes `message` over `session` with the primitive that `severity` selects.
fn transmit(session: &mut Session, severity: Severity, message: &String) -> (r: Result<
    (),
    syslog::Error,
>)
    ensures
        session_identity(*final(session)) == session_identity(*old(session)),
        session_writes(*final(session)) == session_writes(*old(session)).push(
            (severity, message@),
        ),
        session_acks(*final(session)) == session_acks(*old(session)).push(r is Ok),
{
    match severity {
        Severity::Debug => send_debug(session, message),
        Severity::Error => send_err(session, message),
    }
}

/// What one delivery of `record` amounts to, stated over the session it
/// opened:
/// - a session exists exactly when the connection did not fail, and it was
///   opened under the record's identity;
/// - exactly one write was made on it, of the record's message at the
///   record's severity;
/// - the record counts as sent exactly when that write succeeded.
pub open spec fn delivered_over_session(record: RecordView, d: Delivery) -> bool {
    &&& (d.attempt is ConnectFailed) == (d.session@ is None)
    &&& d.session@ is Some ==> {
        let s = d.session@->Some_0;
        &&& session_identity(s) == record_identity(record)
        &&& session_writes(s) == seq![(record.severity, record.message)]
        &&& session_acks(s).len() == 1
    }
    &&& (d.attempt is Sent) == (d.session@ is Some && session_acks(d.session@->Some_0) == seq![true])
}

/// The record, what became of it, and the session it was sent over, if one
/// opened.
pub struct Delivery {
    pub record: LogRecord,
    pub attempt: Attempt,
    pub session: Ghost<Option<Session>>,
}

impl Delivery {
    /// Whether the record reached the service.
    pub fn outcome(&self) -> (r: Outcome)
        ensures
            r == outcome_spec(self.attempt),
    {
        outcome_of(&self.attempt)
    }
}

/// Makes exactly one delivery attempt for `record` over a fresh session, which
/// is dropped before returning. Never panics: a failure to connect and a
/// failure to write are both reported in the returned attempt.
pub fn deliver(record: LogRecord) -> (d: Delivery)
    ensures
        d.record == record,
        delivered_over_session(record@, d),
{
    match open_session(&record) {
        Err(e) => Delivery { record, attempt: attempt_of(Err(e)), session: Ghost(None) },
        Ok(mut session) => {
            let written = transmit(&mut session, record.severity, &record.message);
            let attempt = attempt_of(Ok(written));
            proof {
                let acks = session_acks(session);
                assert(acks =~= seq![written is Ok]);
                assert(session_writes(session) =~= seq![(record.severity, record.message@)]);
                if written is Err {
                    assert(acks[0] != seq![true][0]);
                }
            }
            Delivery { record, attempt, session: Ghost(Some(session)) }
        },
    }
}

} // verus!
