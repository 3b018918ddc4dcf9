//! A minimal in-place console logger.
//!
//! A [`logger::SingleLineLogger`] filters messages by severity, erases the
//! previously written terminal line, and writes the freshly formatted line to
//! a primary sink, optionally appending the same line as a record to a
//! secondary sink.

pub mod level;
pub mod logger;
pub mod render;
pub mod sink;
