//! Syslog messages in the legacy BSD format and in the structured, timestamped format:
//! the numbers that a priority is made of, the two formats byte by byte, and the
//! discipline by which a sender writes a message out in full.
//!
//! Nothing here touches a socket or the logger of the operating system: a sender hands
//! the library what it knows, and is handed bytes, and what to do next.
#![allow(non_snake_case)]
#![allow(non_camel_case_types)]
#![allow(non_upper_case_globals)]

pub mod ascii;

pub mod decimal;

pub mod utf8;

pub mod platform;
pub use platform::Platform;

pub mod severity;
pub use severity::Severity;
pub use severity::LOG_MASK;
pub use severity::LOG_UPTO;

pub mod facility;
pub use facility::Facility;
pub use facility::LOG_NFACILITIES;

pub mod priority;
pub use priority::Priority;
pub use priority::PriorityTrait;

pub mod log_mask;
pub use log_mask::default_log_mask;
pub use log_mask::LogMask;

pub mod log_options;
pub use log_options::LogOptions;
pub use log_options::LOG_CONS;
pub use log_options::LOG_NDELAY;
pub use log_options::LOG_NOWAIT;
pub use log_options::LOG_ODELAY;
pub use log_options::LOG_PERROR;
pub use log_options::LOG_PID;

pub mod vec_u8_push_str;
pub use vec_u8_push_str::VecU8PushStr;

pub mod timestamp;
pub use timestamp::BrokenDownTime;
pub use timestamp::Timestamp;

pub mod rfc5424;

pub mod syslogSenders;

pub mod syslog_rfc;
pub use syslog_rfc::SyslogRfc;

pub mod syslog_rfc_constructor;
pub use syslog_rfc_constructor::Process;
pub use syslog_rfc_constructor::SyslogRfcConstructor;

pub mod standard_error;
pub use standard_error::chosen_facility;
pub use standard_error::standard_error_line;
