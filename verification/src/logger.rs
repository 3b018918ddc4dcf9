//! The single-line logger itself.

use vstd::prelude::*;
use crate::level::{LogLevel, meets_threshold, passes_threshold};
use crate::render::{erase_sequence, erase_str, format_line, formatted_line, single_line, tag_view};
use crate::sink::{LogError, Sink};

verus! {

/// Relies on chrono's `Local::now` and `DateTime::format`: the current local
/// time, rendered with the fixed items `%Y-%m-%d %H:%M:%S`, which produce
/// only digits, `-`, `:`, a space and possibly a sign, never a newline.
#[verifier::external_body]
fn now_timestamp() -> (r: String)
    ensures
        single_line(r@),
{
    chrono::Local::now().format("%Y-%m-%d %H:%M:%S").to_string()
}

/// A logger that keeps a terminal showing one continuously updated status
/// line: each emitted message overwrites the previous one on the primary
/// sink, and is appended as a record of its own to the secondary sink, when
/// one is configured.
pub struct SingleLineLogger<P: Sink, F: Sink> {
    /// The primary sink, where each emitted line overwrites the previous one.
    pub output_stream: P,
    /// The least severity that is emitted.
    pub log_level_threshold: LogLevel,
    /// The optional secondary sink, where each emitted line is appended.
    pub file_logger: Option<F>,
}

impl<P: Sink, F: Sink> SingleLineLogger<P, F> {
    /// Builds a logger over the given sinks with the given initial threshold.
    pub fn new(
        output_stream: P,
        log_level_threshold: LogLevel,
        file_logger: Option<F>,
    ) -> (r: Self)
        ensures
            r.output_stream == output_stream,
            r.log_level_threshold == log_level_threshold,
            r.file_logger == file_logger,
    {
        SingleLineLogger { output_stream, log_level_threshold, file_logger }
    }

    /// Emits a message: when its severity meets the threshold, erases the
    /// previous line on the primary sink, writes the formatted line there
    /// without a trailing newline, appends the same line with a newline to
    /// the secondary sink when one is configured, and flushes both; when it
    /// does not, leaves the logger untouched and reports success.
    pub fn log(
        &mut self,
        level: LogLevel,
        message: &str,
        module: Option<&str>,
    ) -> (r: Result<(), LogError>)
        ensures
            final(self).log_level_threshold == old(self).log_level_threshold,
            (final(self).file_logger is Some) == (old(self).file_logger is Some),
            !passes_threshold(level, old(self).log_level_threshold) ==> r is Ok
                && *final(self) == *old(self),
            passes_threshold(level, old(self).log_level_threshold) && r is Ok
                ==> exists|ts: Seq<char>|
                {
                    let line = formatted_line(ts, level, tag_view(module), message@);
                    &&& #[trigger] single_line(ts)
                    &&& final(self).output_stream.content()
                        == old(self).output_stream.content() + erase_sequence() + line
                    &&& final(self).output_stream.flush_count()
                        == old(self).output_stream.flush_count() + 1
                    &&& match (old(self).file_logger, final(self).file_logger) {
                        (Some(f0), Some(f1)) => f1.content() == f0.content() + line + "\n"@
                            && f1.flush_count() == f0.flush_count() + 1,
                        _ => old(self).file_logger is None,
                    }
                },
    {
        if !meets_threshold(level, self.log_level_threshold) {
            return Ok(());
        }

        match self.output_stream.write_str(erase_str()) {
            Ok(()) => {},
            Err(e) => {
                return Err(e);
            },
        }

        let timestamp = now_timestamp();
        let line = format_line(timestamp.as_str(), level, module, message);

        match self.output_stream.write_str(line.as_str()) {
            Ok(()) => {},
            Err(e) => {
                return Err(e);
            },
        }
        match &mut self.file_logger {
            Some(f) => {
                match f.write_str(line.as_str()) {
                    Ok(()) => {},
                    Err(e) => {
                        return Err(e);
                    },
                }
                match f.write_str("\n") {
                    Ok(()) => {},
                    Err(e) => {
                        return Err(e);
                    },
                }
            },
            None => {},
        }

        match self.output_stream.flush() {
            Ok(()) => {},
            Err(e) => {
                return Err(e);
            },
        }
        match &mut self.file_logger {
            Some(f) => {
                match f.flush() {
                    Ok(()) => {},
                    Err(e) => {
                        return Err(e);
                    },
                }
            },
            None => {},
        }

        Ok(())
    }

    /// Replaces the threshold; the next emission is filtered by the new one.
    pub fn set_log_level_threshold(&mut self, log_level_threshold: LogLevel)
        ensures
            final(self).log_level_threshold == log_level_threshold,
            final(self).output_stream == old(self).output_stream,
            final(self).file_logger == old(self).file_logger,
    {
        self.log_level_threshold = log_level_threshold;
    }

    /// Reads the current threshold.
    pub fn get_log_level_threshold(&self) -> (r: LogLevel)
        ensures
            r == self.log_level_threshold,
    {
        self.log_level_threshold
    }
}

/// Law: an emission after a threshold replacement is filtered by the new
/// threshold alone. For any logger state that `set_log_level_threshold`
/// leaves behind, the filter that the next `log` call applies — whether a
/// severity passes the stored threshold — is decided by the threshold just
/// stored, whatever threshold the prior state held.
pub proof fn lemma_new_threshold_governs_filtering<P: Sink, F: Sink>(
    prior: SingleLineLogger<P, F>,
    current: SingleLineLogger<P, F>,
    new_threshold: LogLevel,
    level: LogLevel,
)
    requires
        current.log_level_threshold == new_threshold,
        current.output_stream == prior.output_stream,
        current.file_logger == prior.file_logger,
    ensures
        passes_threshold(level, current.log_level_threshold) == passes_threshold(
            level,
            new_threshold,
        ),
{
}

} // verus!
