use syslog_bridge::bridge::{close, init, log, set_mask, status_text};
use syslog_bridge::record::{general_record, startup_record, Facility, Severity};
use syslog_bridge::transport::{attempt_of, deliver, outcome_of, Attempt, Delivery, Outcome};

fn failure() -> syslog::Error {
    syslog::Error::from(syslog::ErrorKind::Initialization)
}

#[test]
fn general_record_uses_debug_user_pid_zero() {
    let r = general_record("disk full".to_string(), "backup".to_string());
    assert_eq!(r.facility, Facility::User);
    assert_eq!(r.hostname, None);
    assert_eq!(r.process_name, "backup");
    assert_eq!(r.pid, 0);
    assert_eq!(r.severity, Severity::Debug);
    assert_eq!(r.message, "disk full");
}

#[test]
fn general_record_keeps_empty_text() {
    let r = general_record(String::new(), String::new());
    assert_eq!(r.message, "");
    assert_eq!(r.process_name, "");
    assert_eq!(r.severity, Severity::Debug);
}

#[test]
fn startup_record_is_fixed_announcement() {
    let r = startup_record(4242);
    assert_eq!(r.facility, Facility::User);
    assert_eq!(r.hostname, None);
    assert_eq!(r.process_name, "node");
    assert_eq!(r.pid, 4242);
    assert_eq!(r.severity, Severity::Error);
    assert_eq!(r.message, "hallo-world");
}

#[test]
fn sent_attempt_is_delivered() {
    assert_eq!(outcome_of(&Attempt::Sent), Outcome::Delivered);
}

#[test]
fn connect_failure_is_not_delivered() {
    assert_eq!(outcome_of(&Attempt::ConnectFailed(failure())), Outcome::NotDelivered);
}

#[test]
fn send_failure_is_not_delivered() {
    assert_eq!(outcome_of(&Attempt::SendFailed(failure())), Outcome::NotDelivered);
}

#[test]
fn status_texts() {
    assert_eq!(status_text(Outcome::Delivered), "ok");
    assert_eq!(status_text(Outcome::NotDelivered), "not ok");
}

#[test]
fn opened_and_written_is_sent() {
    let a = attempt_of(Ok(Ok(())));
    assert!(matches!(a, Attempt::Sent));
    assert_eq!(outcome_of(&a), Outcome::Delivered);
    assert_eq!(status_text(outcome_of(&a)), "ok");
}

#[test]
fn not_opened_is_connect_failure() {
    let a = attempt_of(Err(failure()));
    assert!(matches!(a, Attempt::ConnectFailed(_)));
    assert_eq!(status_text(outcome_of(&a)), "not ok");
}

#[test]
fn opened_but_unwritten_is_send_failure() {
    let a = attempt_of(Ok(Err(syslog::Error::from(syslog::ErrorKind::Write))));
    assert!(matches!(a, Attempt::SendFailed(_)));
    assert_eq!(status_text(outcome_of(&a)), "not ok");
}

#[test]
fn delivery_status_follows_attempt() {
    let d = log("status check".to_string(), "bridge-test".to_string());
    match d.attempt {
        Attempt::Sent => {
            assert_eq!(d.outcome(), Outcome::Delivered);
            assert_eq!(d.status(), "ok");
        }
        _ => {
            assert_eq!(d.outcome(), Outcome::NotDelivered);
            assert_eq!(d.status(), "not ok");
        }
    }
}

#[test]
fn set_mask_acknowledges() {
    assert_eq!(set_mask(), "setMask");
}

#[test]
fn close_acknowledges() {
    assert_eq!(close(), "close");
}

fn consistent(d: &Delivery) -> bool {
    match d.attempt {
        Attempt::Sent => d.status() == "ok",
        _ => d.status() == "not ok",
    }
}

#[test]
fn log_reports_its_own_attempt() {
    let d = log("bridge test message".to_string(), "bridge-test".to_string());
    assert_eq!(d.record.process_name, "bridge-test");
    assert_eq!(d.record.message, "bridge test message");
    assert_eq!(d.record.pid, 0);
    assert_eq!(d.record.severity, Severity::Debug);
    assert!(consistent(&d));
}

#[test]
fn init_reports_its_own_attempt() {
    let d = init(31337);
    assert_eq!(d.record.process_name, "node");
    assert_eq!(d.record.message, "hallo-world");
    assert_eq!(d.record.pid, 31337);
    assert_eq!(d.record.severity, Severity::Error);
    assert!(consistent(&d));
}

#[test]
fn deliver_keeps_the_record() {
    let d = deliver(startup_record(7));
    assert_eq!(d.record.pid, 7);
    assert_eq!(d.record.message, "hallo-world");
    assert!(consistent(&d));
}

#[test]
fn successive_calls_are_independent() {
    let first = log("first".to_string(), "a".to_string());
    let second = log("second".to_string(), "b".to_string());
    assert!(consistent(&first));
    assert!(consistent(&second));
    assert_eq!(first.record.message, "first");
    assert_eq!(second.record.message, "second");
}
