//! Glob patterns: the contracts under which `glob::Pattern` is used, and the
//! rule that decides whether one pattern excludes one path.

use crate::path::PathText;
use crate::text::texts;
use glob::{Pattern, PatternError};
use vstd::prelude::*;

verus! {

/// `glob::Pattern`, carried through as an opaque value.
#[verifier::external_type_specification]
#[verifier::external_body]
pub struct ExPattern(Pattern);

/// `glob::PatternError`, carried through as an opaque value.
#[verifier::external_type_specification]
#[verifier::external_body]
pub struct ExPatternError(PatternError);

/// Whether `glob::Pattern::new` accepts `pattern` as a well-formed glob, on
/// the platform the library is built for.
pub uninterp spec fn glob_compiles(pattern: Seq<char>) -> bool;

/// The text that a compiled pattern was built from, as `glob::Pattern::as_str`
/// gives it back.
pub uninterp spec fn pattern_source(compiled: Pattern) -> Seq<char>;

/// Whether the pattern compiled from `pattern` matches the whole of `path`
/// under `glob::Pattern::matches`, that is with the default match options
/// and with the path separators of the platform the library is built for.
pub uninterp spec fn glob_matches(pattern: Seq<char>, path: Seq<char>) -> bool;

/// `glob::Pattern::new`: succeeds exactly on well-formed globs, and the
/// compiled pattern remembers the text it was given.
pub assume_specification[ Pattern::new ](pattern: &str) -> (compiled: Result<Pattern, PatternError>)
    ensures
        compiled is Ok <==> glob_compiles(pattern@),
        compiled matches Ok(p) ==> pattern_source(p) == pattern@,
;

/// `glob::Pattern::matches`: the answer depends on the pattern's text and on
/// the candidate string alone.
pub assume_specification[ Pattern::matches ](compiled: &Pattern, path: &str) -> (hit: bool)
    ensures
        hit == glob_matches(pattern_source(*compiled), path@),
;

/// One pattern excludes one path when it is a well-formed glob that matches
/// the path; a malformed pattern excludes nothing.
pub open spec fn excludes(pattern: Seq<char>, path: Seq<char>) -> bool {
    glob_compiles(pattern) && glob_matches(pattern, path)
}

/// Decides from the outcome of compiling a pattern whether it excludes
/// `path`: a compiled pattern excludes what it matches, a pattern that did
/// not compile excludes nothing.
pub fn compiled_excludes(compiled: &Result<Pattern, PatternError>, path: &str) -> (hit: bool)
    ensures
        hit == match compiled {
            Ok(pattern) => glob_matches(pattern_source(*pattern), path@),
            Err(_) => false,
        },
{
    match compiled {
        Ok(pattern) => pattern.matches(path),
        Err(_) => false,
    }
}

/// Decides whether `pattern` excludes `path`.
pub fn pattern_excludes(pattern: &str, path: &str) -> (hit: bool)
    ensures
        hit == excludes(pattern@, path@),
{
    let compiled = Pattern::new(pattern);
    compiled_excludes(&compiled, path)
}

/// A path is ignored under a list of patterns when at least one of them
/// excludes it. The order of the patterns plays no part, and no pattern can
/// bring an excluded path back.
pub open spec fn ignored(path: Seq<char>, list: Seq<Seq<char>>) -> bool {
    exists|i: int| 0 <= i < list.len() && excludes(#[trigger] list[i], path)
}

/// Decides whether the file at `file_path`, a path relative to the root of
/// the walk, is left out under `ignore_list`.
pub fn should_ignore(file_path: &PathText, ignore_list: &[String]) -> (skip: bool)
    ensures
        skip == ignored(file_path@.match_key(), texts(ignore_list@)),
        ignore_list@.len() == 0 ==> !skip,
{
    let key = file_path.match_key();
    let mut i: usize = 0;
    while i < ignore_list.len()
        invariant
            i <= ignore_list.len(),
            key@ == file_path@.match_key(),
            forall|j: int| 0 <= j < i ==> !excludes(#[trigger] texts(ignore_list@)[j], key@),
        decreases ignore_list.len() - i,
    {
        if pattern_excludes(ignore_list[i].as_str(), key) {
            assert(excludes(texts(ignore_list@)[i as int], key@));
            return true;
        }
        i += 1;
    }
    false
}

/// The empty list ignores no path.
pub proof fn lemma_empty_list_ignores_nothing(path: Seq<char>)
    ensures
        !ignored(path, Seq::empty()),
{
}

/// Adding patterns never brings a path back: what a list ignores, every
/// longer list ignores too.
pub proof fn lemma_ignored_is_monotonic(path: Seq<char>, list: Seq<Seq<char>>, more: Seq<Seq<char>>)
    requires
        ignored(path, list),
    ensures
        ignored(path, list + more),
        ignored(path, more + list),
{
    let i = choose|i: int| 0 <= i < list.len() && excludes(#[trigger] list[i], path);
    assert((list + more)[i] == list[i]);
    assert((more + list)[more.len() + i] == list[i]);
}

} // verus!
