//! Rendering a log record as a line of text.

use vstd::prelude::*;
use vstd::string::StringExecFns;
use crate::level::{LogLevel, level_name, level_string};

verus! {

/// The control sequence written before each emitted line: cursor up one line,
/// then erase from the cursor to the end of the screen.
pub open spec fn erase_sequence() -> Seq<char> {
    "\u{1b}[1F\u{1b}[0J"@
}

/// The view of an optional module tag.
pub open spec fn tag_view(module: Option<&str>) -> Option<Seq<char>> {
    match module {
        Some(m) => Some(m@),
        None => None,
    }
}

/// The formatted line of a record: `[<timestamp>] [<SEVERITY>] [<tag>] <message>`
/// when a module tag is given, `[<timestamp>] [<SEVERITY>] <message>` otherwise.
pub open spec fn formatted_line(
    ts: Seq<char>,
    level: LogLevel,
    module: Option<Seq<char>>,
    msg: Seq<char>,
) -> Seq<char> {
    match module {
        Some(m) => "["@ + ts + "] ["@ + level_name(level) + "] ["@ + m + "] "@ + msg,
        None => "["@ + ts + "] ["@ + level_name(level) + "] "@ + msg,
    }
}

/// Writes out the erase control sequence.
pub fn erase_str() -> (r: &'static str)
    ensures
        r@ == erase_sequence(),
{
    "\u{1b}[1F\u{1b}[0J"
}

/// True when no character of `s` is a newline, so that `s`, written out as
/// one record, occupies a single line.
pub open spec fn single_line(s: Seq<char>) -> bool {
    forall|i: int| 0 <= i < s.len() ==> s[i] != '\n'
}

/// Builds the formatted line of a record.
pub fn format_line(
    timestamp: &str,
    level: LogLevel,
    module: Option<&str>,
    message: &str,
) -> (r: String)
    ensures
        r@ == formatted_line(timestamp@, level, tag_view(module), message@),
{
    let mut s = String::from_str("[");
    s.append(timestamp);
    s.append("] [");
    s.append(level_string(level));
    match module {
        Some(m) => {
            s.append("] [");
            s.append(m);
            s.append("] ");
        },
        None => {
            s.append("] ");
        },
    }
    s.append(message);
    s
}

/// Text written as two pieces stays on one line when each piece does.
proof fn lemma_single_line_concat(a: Seq<char>, b: Seq<char>)
    requires
        single_line(a),
        single_line(b),
    ensures
        single_line(a + b),
{
    assert forall|i: int| 0 <= i < (a + b).len() implies (a + b)[i] != '\n' by {
        if i < a.len() {
            assert((a + b)[i] == a[i]);
        } else {
            assert((a + b)[i] == b[i - a.len()]);
        }
    }
}

/// The fixed upper-case severity names hold no newline.
proof fn lemma_level_name_single_line(level: LogLevel)
    ensures
        single_line(level_name(level)),
{
    reveal_strlit("DEBUG");
    reveal_strlit("INFO");
    reveal_strlit("WARNING");
    reveal_strlit("ERROR");
}

/// Law: a formatted line holds no newline when its timestamp, module tag and
/// message hold none; a record appended to the secondary sink as the line
/// followed by one newline therefore occupies exactly one line there.
pub proof fn lemma_formatted_line_single_line(
    ts: Seq<char>,
    level: LogLevel,
    module: Option<Seq<char>>,
    msg: Seq<char>,
)
    requires
        single_line(ts),
        module is Some ==> single_line(module->0),
        single_line(msg),
    ensures
        single_line(formatted_line(ts, level, module, msg)),
{
    reveal_strlit("[");
    reveal_strlit("] [");
    reveal_strlit("] ");
    lemma_level_name_single_line(level);
    match module {
        Some(m) => {
            lemma_single_line_concat("["@, ts);
            lemma_single_line_concat("["@ + ts, "] ["@);
            lemma_single_line_concat("["@ + ts + "] ["@, level_name(level));
            lemma_single_line_concat("["@ + ts + "] ["@ + level_name(level), "] ["@);
            lemma_single_line_concat("["@ + ts + "] ["@ + level_name(level) + "] ["@, m);
            lemma_single_line_concat(
                "["@ + ts + "] ["@ + level_name(level) + "] ["@ + m,
                "] "@,
            );
            lemma_single_line_concat(
                "["@ + ts + "] ["@ + level_name(level) + "] ["@ + m + "] "@,
                msg,
            );
        },
        None => {
            lemma_single_line_concat("["@, ts);
            lemma_single_line_concat("["@ + ts, "] ["@);
            lemma_single_line_concat("["@ + ts + "] ["@, level_name(level));
            lemma_single_line_concat("["@ + ts + "] ["@ + level_name(level), "] "@);
            lemma_single_line_concat(
                "["@ + ts + "] ["@ + level_name(level) + "] "@,
                msg,
            );
        },
    }
}

/// Law: an emission extends the primary sink strictly: the erase control
/// sequence and the formatted line are both non-empty, so text written as
/// the old content followed by them is longer than the old content.
pub proof fn lemma_emission_extends(
    content: Seq<char>,
    ts: Seq<char>,
    level: LogLevel,
    module: Option<Seq<char>>,
    msg: Seq<char>,
)
    ensures
        (content + erase_sequence() + formatted_line(ts, level, module, msg)).len()
            > content.len(),
        erase_sequence().len() == 8,
        formatted_line(ts, level, module, msg).len() > 0,
{
    reveal_strlit("\u{1b}[1F\u{1b}[0J");
    reveal_strlit("[");
}

} // verus!
