//! Dynamic serialization and deserialization with the format chosen at
//! runtime.
//!
//! A value can be encoded or decoded with an explicitly given [`Format`],
//! with a format guessed from a file extension, or, for decoding, by
//! probing every enabled format in a fixed priority order until one
//! parses. The concrete codecs are external collaborators; this crate owns
//! the format registry, the single-format dispatchers, the probing
//! algorithm with its full failure record, and the write-side resolution
//! policy that refuses a target it cannot name a format for.

mod backend;

pub mod de;
pub mod error;
pub mod format;
pub mod ser;
pub mod test_util;

pub use de::StemProbe;
pub use de::from_reader;
pub use de::from_slice;
pub use de::from_slice_any;
pub use de::from_str;
pub use de::from_str_any;
pub use error::AnyError;
pub use format::Format;
pub use format::UnknownFormatStringError;
pub use format::guess_format;
pub use format::guess_format_from_extension;
pub use format::supported_extensions;
pub use format::supported_formats;
pub use ser::resolve_write_format;
pub use ser::to_string;
pub use ser::to_string_pretty;
pub use ser::to_vec;
pub use ser::to_vec_pretty;
pub use ser::to_writer;
pub use ser::to_writer_pretty;
pub use test_util::Wizard;
pub use test_util::gandalf_the_grey;
pub use test_util::gandalf_the_white;
pub use test_util::radagast;
