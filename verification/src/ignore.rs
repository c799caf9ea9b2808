//! The ignore list: how the text of a rules file becomes an ordered list of
//! patterns, one per line, written with the platform's path separator.

use crate::text::{push_char, texts};
use vstd::prelude::*;

verus! {

/// The two conventions for the character that separates path components.
#[derive(Clone, Copy, Debug, PartialEq, Eq, Structural)]
pub enum Separator {
    /// Components are separated by `/`; patterns are used as written.
    Slash,
    /// Components are separated by `\`; every `/` of a pattern is rewritten.
    Backslash,
}

impl Separator {
    /// The convention that goes with a platform's main separator character:
    /// `Backslash` for `\\`, `Slash` for every other character.
    pub fn of_platform(main_separator: char) -> (separator: Separator)
        ensures
            separator == if main_separator == '\\' {
                Separator::Backslash
            } else {
                Separator::Slash
            },
    {
        if main_separator == '\\' {
            Separator::Backslash
        } else {
            Separator::Slash
        }
    }
}

/// The name of the rules file, which is looked for directly under the root.
pub const IGNORE_FILE_NAME: &'static str = ".gptignore";

/// Number of characters of `text` that stand before its first line feed, or
/// the whole length where it holds none.
pub open spec fn line_len(text: Seq<char>) -> nat
    decreases text.len(),
{
    if text.len() == 0 || text[0] == '\n' {
        0
    } else {
        1 + line_len(text.drop_first())
    }
}

/// A line without the carriage return that may close it.
pub open spec fn strip_cr(line: Seq<char>) -> Seq<char> {
    if line.len() > 0 && line.last() == '\r' {
        line.drop_last()
    } else {
        line
    }
}

/// The lines of `text`. A line ends at a line feed, which is dropped together
/// with a carriage return directly before it. Text after the last line feed
/// is a line of its own unless it is empty, and keeps a closing carriage
/// return. Blank lines are kept.
pub open spec fn lines_of(text: Seq<char>) -> Seq<Seq<char>>
    decreases text.len(),
{
    let n = line_len(text) as int;
    if text.len() == 0 {
        Seq::empty()
    } else if n >= text.len() {
        seq![text]
    } else {
        seq![strip_cr(text.take(n))] + lines_of(text.skip(n + 1))
    }
}

/// A pattern with every `/` rewritten to `\`; all other characters stay.
pub open spec fn backslashed(line: Seq<char>) -> Seq<char> {
    line.map_values(
        |c: char|
            if c == '/' {
                '\\'
            } else {
                c
            },
    )
}

/// A pattern under the given separator convention: with `Backslash` every `/`
/// becomes `\`, with `Slash` the pattern is unchanged.
pub open spec fn normalized(line: Seq<char>, separator: Separator) -> Seq<char> {
    match separator {
        Separator::Slash => line,
        Separator::Backslash => backslashed(line),
    }
}

/// The ignore list that the text of a rules file stands for: its lines, in
/// order, each normalized. No line is dropped, merged or read as a comment.
pub open spec fn patterns_of(content: Seq<char>, separator: Separator) -> Seq<Seq<char>> {
    lines_of(content).map_values(|line: Seq<char>| normalized(line, separator))
}

/// The ignore list for a rules file that may be absent: no file, no rules.
pub open spec fn ignore_list_of(content: Option<Seq<char>>, separator: Separator) -> Seq<
    Seq<char>,
> {
    match content {
        Some(text) => patterns_of(text, separator),
        None => Seq::empty(),
    }
}

/// `line_len` is the position of the first line feed: if `text` has none
/// before `k`, and either ends at `k` or has one there, the first line is
/// `k` characters long.
pub proof fn lemma_line_len(text: Seq<char>, k: int)
    requires
        0 <= k <= text.len(),
        forall|j: int| 0 <= j < k ==> text[j] != '\n',
        k == text.len() || text[k] == '\n',
    ensures
        line_len(text) == k,
    decreases k,
{
    if k > 0 {
        let rest = text.drop_first();
        assert forall|j: int| 0 <= j < k - 1 implies rest[j] != '\n' by {}
        lemma_line_len(rest, k - 1);
    }
}

/// Splits `text` into its lines.
pub fn split_lines(text: &str) -> (lines: Vec<String>)
    ensures
        texts(lines@) == lines_of(text@),
{
    let mut lines: Vec<String> = Vec::new();
    let mut current = String::new();
    // A carriage return that was read but not yet added to `current`: it is
    // dropped if a line feed follows, and kept otherwise.
    let mut held_cr = false;
    let ghost mut start: int = 0;
    proof {
        assert(text@.skip(0) =~= text@);
    }
    for c in it: text.chars()
        invariant
            it.seq() == text@,
            0 <= start <= it.index() <= text@.len(),
            forall|j: int| start <= j < it.index() ==> text@[j] != '\n',
            text@.subrange(start, it.index()) == if held_cr {
                current@.push('\r')
            } else {
                current@
            },
            !held_cr ==> current@.len() == 0 || current@.last() != '\r',
            lines_of(text@) == texts(lines@) + lines_of(text@.skip(start)),
    {
        let ghost i = it.index();
        let ghost rest = text@.skip(start);
        let ghost line = text@.subrange(start, i);
        if c == '\n' {
            proof {
                assert forall|j: int| 0 <= j < i - start implies rest[j] != '\n' by {}
                lemma_line_len(rest, i - start);
                assert(rest.take(i - start) =~= line);
                assert(rest.skip(i - start + 1) =~= text@.skip(i + 1));
                assert(strip_cr(line) =~= current@);
            }
            lines.push(current);
            current = String::new();
            held_cr = false;
            proof {
                start = i + 1;
            }
        } else {
            if held_cr {
                push_char(&mut current, '\r');
            }
            if c == '\r' {
                held_cr = true;
            } else {
                push_char(&mut current, c);
                held_cr = false;
            }
        }
    }
    let ghost rest = text@.skip(start);
    proof {
        assert forall|j: int| 0 <= j < rest.len() implies rest[j] != '\n' by {}
        lemma_line_len(rest, rest.len() as int);
    }
    if held_cr {
        push_char(&mut current, '\r');
    }
    if !current.as_str().is_empty() {
        lines.push(current);
    }
    lines
}

/// Rewrites one pattern for the given separator convention.
pub fn normalize_pattern(line: &str, separator: Separator) -> (pattern: String)
    ensures
        pattern@ == normalized(line@, separator),
{
    match separator {
        Separator::Slash => line.to_owned(),
        Separator::Backslash => {
            let mut pattern = String::new();
            for c in it: line.chars()
                invariant
                    it.seq() == line@,
                    0 <= it.index() <= line@.len(),
                    pattern@ == backslashed(line@.take(it.index())),
            {
                let mapped = if c == '/' {
                    '\\'
                } else {
                    c
                };
                push_char(&mut pattern, mapped);
            }
            pattern
        },
    }
}

/// Reads the text of a rules file as an ignore list.
pub fn parse_ignore_list(content: &str, separator: Separator) -> (list: Vec<String>)
    ensures
        texts(list@) == patterns_of(content@, separator),
{
    let lines = split_lines(content);
    let mut list: Vec<String> = Vec::new();
    let mut i: usize = 0;
    while i < lines.len()
        invariant
            i <= lines.len(),
            texts(lines@) == lines_of(content@),
            list@.len() == i,
            forall|j: int|
                0 <= j < i ==> (#[trigger] list@[j])@ == normalized(lines@[j]@, separator),
        decreases lines.len() - i,
    {
        let pattern = normalize_pattern(lines[i].as_str(), separator);
        list.push(pattern);
        i += 1;
    }
    proof {
        assert forall|j: int| 0 <= j < list@.len() implies texts(list@)[j] == patterns_of(
            content@,
            separator,
        )[j] by {}
    }
    list
}

/// Builds the ignore list from what was read of the rules file: `None`
/// stands for a file that is absent or could not be read as text, and gives
/// the empty list.
pub fn get_ignore_list(content: Option<&str>, separator: Separator) -> (list: Vec<String>)
    ensures
        texts(list@) == ignore_list_of(
            match content {
                Some(text) => Some(text@),
                None => None,
            },
            separator,
        ),
{
    match content {
        Some(text) => parse_ignore_list(text, separator),
        None => Vec::new(),
    }
}

} // verus!
