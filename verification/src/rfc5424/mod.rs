//! What the structured format is made of: text of printable US-ASCII of bounded
//! length, structured data, and the counter that numbers the messages.

pub mod truncated_us_ascii_printable_string;
pub use self::truncated_us_ascii_printable_string::SdNameError;
pub use self::truncated_us_ascii_printable_string::TruncatedUsAsciiPrintableString;
pub use self::truncated_us_ascii_printable_string::WriteTruncatedUsAsciiPrintableString;

pub mod structured_data_parameter;
pub use self::structured_data_parameter::StructuredDataParameter;

pub mod structured_data_element;
pub use self::structured_data_element::StructuredDataElement;

pub mod structured_data;
pub use self::structured_data::write_structured_data_elements;
pub use self::structured_data::StructuredData;

pub mod atomic_i32;
pub use self::atomic_i32::AtomicI32;

pub mod sequence_id;
pub use self::sequence_id::next_sequence_id;
pub use self::sequence_id::OwnedSequenceId;
pub use self::sequence_id::SequenceId;
