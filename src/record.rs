use vstd::prelude::*;

verus! {

/// Category of the message source; this bridge always logs as a user-level process.
#[derive(PartialEq, Eq, Structural, Clone, Copy, Debug)]
pub enum Facility {
    User,
}

/// Urgency of a record; it selects the primitive used to transmit it.
#[derive(PartialEq, Eq, Structural, Clone, Copy, Debug)]
pub enum Severity {
    Debug,
    Error,
}

/// One record, built for a single delivery attempt and then discarded.
///
/// Every field but `hostname` is always present; `None` there lets the
/// transport fill in the local machine's name.
#[derive(Debug)]
pub struct LogRecord {
    pub facility: Facility,
    pub hostname: Option<String>,
    pub process_name: String,
    pub pid: u32,
    pub severity: Severity,
    pub message: String,
}

/// The mathematical content of a `LogRecord`.
pub struct RecordView {
    pub facility: Facility,
    pub hostname: Option<Seq<char>>,
    pub process_name: Seq<char>,
    pub pid: u32,
    pub severity: Severity,
    pub message: Seq<char>,
}

pub open spec fn view_hostname(h: Option<String>) -> Option<Seq<char>> {
    match h {
        Some(s) => Some(s@),
        None => None,
    }
}

impl View for LogRecord {
    type V = RecordView;

    open spec fn view(&self) -> RecordView {
        RecordView {
            facility: self.facility,
            hostname: view_hostname(self.hostname),
            process_name: self.process_name@,
            pid: self.pid,
            severity: self.severity,
            message: self.message@,
        }
    }
}

/// Process name under which the startup announcement is sent.
pub const STARTUP_PROCESS_NAME: &'static str = "node";

/// Text of the startup announcement.
pub const STARTUP_MESSAGE: &'static str = "hallo-world";

/// The record that general logging sends: the caller's text and process name,
/// at debug severity, with pid 0 and no hostname.
pub open spec fn general_record_spec(message: Seq<char>, process_name: Seq<char>) -> RecordView {
    RecordView {
        facility: Facility::User,
        hostname: None,
        process_name,
        pid: 0,
        severity: Severity::Debug,
        message,
    }
}

/// The startup announcement: fixed process name and text, at error severity,
/// carrying the real process id.
pub open spec fn startup_record_spec(pid: u32) -> RecordView {
    RecordView {
        facility: Facility::User,
        hostname: None,
        process_name: STARTUP_PROCESS_NAME@,
        pid,
        severity: Severity::Error,
        message: STARTUP_MESSAGE@,
    }
}

/// Builds the record for a general log call.
pub fn general_record(message: String, process_name: String) -> (r: LogRecord)
    ensures
        r@ == general_record_spec(message@, process_name@),
{
    LogRecord {
        facility: Facility::User,
        hostname: None,
        process_name,
        pid: 0,
        severity: Severity::Debug,
        message,
    }
}

/// Builds the startup announcement for the process with id `pid`.
pub fn startup_record(pid: u32) -> (r: LogRecord)
    ensures
        r@ == startup_record_spec(pid),
{
    LogRecord {
        facility: Facility::User,
        hostname: None,
        process_name: STARTUP_PROCESS_NAME.to_owned(),
        pid,
        severity: Severity::Error,
        message: STARTUP_MESSAGE.to_owned(),
    }
}

} // verus!
