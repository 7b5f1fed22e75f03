//! A bridge that hands log records to the local syslog service and reports,
//! as a two-valued outcome, whether each one was delivered.
pub mod bridge;
pub mod laws;
pub mod record;
pub mod transport;
