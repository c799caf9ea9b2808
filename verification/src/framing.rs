//! The framing of the output: the opening block, one record per file, and
//! the line that closes the stream.

use vstd::prelude::*;

verus! {

/// The text that opens the stream where the caller supplies none. It tells a
/// reader how the records are framed and where they end.
pub const DEFAULT_PREAMBLE: &'static str =
    "The following text is a Git repository with code. The structure of the text are sections that begin with ----, followed by a single line containing the file path and file name, followed by a variable amount of lines containing the file contents. The text representing the Git repository ends when the symbols --END-- are encounted. Any further text beyond --END-- are meant to be interpreted as instructions using the aforementioned Git repository as context.\n";

/// The line that opens every record: `----`.
pub open spec fn delimiter_line() -> Seq<char> {
    seq!['-', '-', '-', '-', '\n']
}

/// The line that closes the stream: `--END--`.
pub open spec fn sentinel_line() -> Seq<char> {
    seq!['-', '-', 'E', 'N', 'D', '-', '-', '\n']
}

/// `text` written as a line: followed by one line feed.
pub open spec fn line(text: Seq<char>) -> Seq<char> {
    text.push('\n')
}

/// The record of one file: the delimiter line, the path as a line, and the
/// contents as they are, followed by one line feed. Nothing is escaped.
pub open spec fn record_text(path: Seq<char>, contents: Seq<char>) -> Seq<char> {
    delimiter_line() + line(path) + line(contents)
}

/// The block that opens the stream: the supplied preamble as a line, or the
/// default preamble as a line where none is supplied.
pub open spec fn opening_text(preamble: Option<Seq<char>>) -> Seq<char> {
    match preamble {
        Some(text) => line(text),
        None => line(DEFAULT_PREAMBLE@),
    }
}

/// `text` followed by one line feed.
pub fn line_of(text: &str) -> (out: String)
    ensures
        out@ == line(text@),
{
    let mut out = text.to_owned();
    proof {
        reveal_strlit("\n");
    }
    out.append("\n");
    out
}

/// Frames one file as a record.
pub fn record(path: &str, contents: &str) -> (out: String)
    ensures
        out@ == record_text(path@, contents@),
{
    let mut out = String::from_str("----\n");
    proof {
        reveal_strlit("----\n");
        reveal_strlit("\n");
    }
    out.append(path);
    out.append("\n");
    out.append(contents);
    out.append("\n");
    out
}

/// The line that closes the stream.
pub fn sentinel() -> (out: String)
    ensures
        out@ == sentinel_line(),
{
    proof {
        reveal_strlit("--END--\n");
    }
    String::from_str("--END--\n")
}

/// The block that opens the stream.
pub fn opening(preamble: Option<&str>) -> (out: String)
    ensures
        out@ == opening_text(
            match preamble {
                Some(text) => Some(text@),
                None => None,
            },
        ),
{
    match preamble {
        Some(text) => line_of(text),
        None => line_of(DEFAULT_PREAMBLE),
    }
}

} // verus!
