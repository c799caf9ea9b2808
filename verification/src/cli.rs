//! The command line: which arguments name the root, the preamble file and
//! the output file.

use crate::text::texts;
use vstd::prelude::*;

verus! {

/// The output file that is written where `-o` names none.
pub const DEFAULT_OUTPUT: &'static str = "output.txt";

/// The line that is shown where the root is missing.
pub const USAGE: &'static str =
    "Usage: git_to_text /path/to/git/repository [-p /path/to/preamble.txt] [-o /path/to/output_file.txt]";

/// What a command line asks for.
#[derive(Clone, Debug, PartialEq, Eq)]
pub struct Invocation {
    /// The directory to walk.
    pub root: String,
    /// The file that holds the preamble, where `-p` names one.
    pub preamble: Option<String>,
    /// The file to write.
    pub output: String,
}

/// What an `Invocation` holds, as sequences of characters.
pub struct SpecInvocation {
    pub root: Seq<char>,
    pub preamble: Option<Seq<char>>,
    pub output: Seq<char>,
}

impl View for Invocation {
    type V = SpecInvocation;

    open spec fn view(&self) -> SpecInvocation {
        SpecInvocation {
            root: self.root@,
            preamble: match self.preamble {
                Some(path) => Some(path@),
                None => None,
            },
            output: self.output@,
        }
    }
}

/// The command line cannot be used: it names no root.
#[derive(Clone, Copy, Debug, PartialEq, Eq, Structural)]
pub struct UsageError;

/// Whether `word` is one of the two flags, `-p` and `-o`.
pub open spec fn is_flag(word: Seq<char>) -> bool {
    word == "-p"@ || word == "-o"@
}

/// A command line names a root when it has a second word and that word is
/// not a flag. The first word is the program's name.
pub open spec fn names_root(args: Seq<Seq<char>>) -> bool {
    args.len() >= 2 && !is_flag(args[1])
}

/// The position of the first word after the root that is equal to `flag`.
/// The program's name and the root are never read as flags.
pub open spec fn flag_position(args: Seq<Seq<char>>, flag: Seq<char>) -> Option<int> {
    if args.len() < 2 {
        None
    } else {
        match args.skip(2).index_of_first(flag) {
            Some(at) => Some(at + 2),
            None => None,
        }
    }
}

/// Whether `flag`, where it occurs after the root, has a word after its
/// first occurrence.
pub open spec fn has_value(args: Seq<Seq<char>>, flag: Seq<char>) -> bool {
    match flag_position(args, flag) {
        Some(at) => at + 1 < args.len(),
        None => true,
    }
}

/// The word after the first occurrence of `flag`, where `flag` occurs after
/// the root.
pub open spec fn value_of(args: Seq<Seq<char>>, flag: Seq<char>) -> Option<Seq<char>> {
    match flag_position(args, flag) {
        Some(at) => Some(args[at + 1]),
        None => None,
    }
}

/// A command line is complete when it names no root, or when each of `-p`
/// and `-o` that occurs after the root is followed by a value.
pub open spec fn complete(args: Seq<Seq<char>>) -> bool {
    names_root(args) ==> has_value(args, "-p"@) && has_value(args, "-o"@)
}

/// What a command line asks for, or `None` where it names no root: where it
/// has fewer than two words, or a flag stands in the root's place.
pub open spec fn invocation_of(args: Seq<Seq<char>>) -> Option<SpecInvocation> {
    if !names_root(args) {
        None
    } else {
        Some(
            SpecInvocation {
                root: args[1],
                preamble: value_of(args, "-p"@),
                output: match value_of(args, "-o"@) {
                    Some(path) => path,
                    None => DEFAULT_OUTPUT@,
                },
            },
        )
    }
}

/// Says whether a command line names a root.
pub fn has_root(args: &[String]) -> (named: bool)
    ensures
        named == names_root(texts(args@)),
{
    if args.len() < 2 {
        return false;
    }
    let preamble_flag = "-p".to_owned();
    let output_flag = "-o".to_owned();
    !(args[1] == preamble_flag || args[1] == output_flag)
}

/// Finds the first word after the root that is equal to `flag`.
pub fn find_flag(args: &[String], flag: &str) -> (position: Option<usize>)
    ensures
        match position {
            Some(at) => flag_position(texts(args@), flag@) == Some(at as int),
            None => flag_position(texts(args@), flag@) is None,
        },
        position matches Some(at) ==> 2 <= at < args.len(),
{
    if args.len() < 2 {
        return None;
    }
    let wanted = flag.to_owned();
    let ghost options = texts(args@).skip(2);
    let mut i: usize = 2;
    while i < args.len()
        invariant
            2 <= i <= args.len(),
            wanted@ == flag@,
            options == texts(args@).skip(2),
            forall|j: int| 0 <= j < i - 2 ==> options[j] != flag@,
        decreases args.len() - i,
    {
        if args[i] == wanted {
            proof {
                assert(options[i - 2] == flag@);
                options.index_of_first_ensures(flag@);
            }
            return Some(i);
        }
        i += 1;
    }
    proof {
        options.index_of_first_ensures(flag@);
    }
    None
}

/// Says whether a command line is complete.
pub fn is_complete(args: &[String]) -> (ok: bool)
    ensures
        ok == complete(texts(args@)),
{
    if !has_root(args) {
        return true;
    }
    let preamble_ok = match find_flag(args, "-p") {
        Some(at) => at + 1 < args.len(),
        None => true,
    };
    let output_ok = match find_flag(args, "-o") {
        Some(at) => at + 1 < args.len(),
        None => true,
    };
    preamble_ok && output_ok
}

/// Reads a command line. A command line that names no root is a usage
/// error, whatever else it holds.
pub fn parse_args(args: &[String]) -> (parsed: Result<Invocation, UsageError>)
    requires
        complete(texts(args@)),
    ensures
        match parsed {
            Ok(invocation) => invocation_of(texts(args@)) == Some(invocation@),
            Err(_) => invocation_of(texts(args@)) is None,
        },
        parsed is Err <==> !names_root(texts(args@)),
{
    if !has_root(args) {
        return Err(UsageError);
    }
    let preamble = match find_flag(args, "-p") {
        Some(at) => Some(args[at + 1].clone()),
        None => None,
    };
    let output = match find_flag(args, "-o") {
        Some(at) => args[at + 1].clone(),
        None => DEFAULT_OUTPUT.to_owned(),
    };
    Ok(Invocation { root: args[1].clone(), preamble, output })
}

} // verus!
