//! Parsing of single container-runtime (CRI) log lines.

pub mod entry;
pub mod stream;
pub mod text;
pub mod timestamp;

pub use entry::{CriLog, ParsingError};
pub use stream::{InvalidStreamType, StreamType};
pub use timestamp::Timestamp;
