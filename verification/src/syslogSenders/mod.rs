//! What a sender needs besides the bytes of a message: the facility numbering of the
//! wire, the discipline by which a message is written out in full, and what the local
//! logger is handed.

pub mod rfc3164_facility;
pub use self::rfc3164_facility::Rfc3164Facility;

pub mod transmission;
pub use self::transmission::is_transient;
pub use self::transmission::RetryPolicy;
pub use self::transmission::SendStep;
pub use self::transmission::Transmission;
pub use self::transmission::TransportErrorKind;
pub use self::transmission::WriteOutcome;

pub mod local_logger;
pub use self::local_logger::bytes_before_nul;
