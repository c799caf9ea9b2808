//! Paths as the library sees them: the text a path is matched by and the
//! text it is written as.

use vstd::prelude::*;

verus! {

/// A path handed over as text. The two constructors build every path that
/// a file system can name, and each of them is well formed (`wf`).
#[derive(Clone, Debug, PartialEq, Eq)]
pub struct PathText {
    /// The path as valid text, or `None` where it has no such form.
    pub text: Option<String>,
    /// The path as it is shown to a reader, which every path has.
    pub display: String,
}

/// What a `PathText` holds, as sequences of characters.
pub struct SpecPathText {
    pub text: Option<Seq<char>>,
    pub display: Seq<char>,
}

impl SpecPathText {
    /// A path that has a form as valid text is shown by exactly that text.
    /// Only a path without such a form is shown by something else.
    pub open spec fn wf(self) -> bool {
        self.text matches Some(text) ==> self.display == text
    }

    /// The string that ignore patterns are matched against: the path's text,
    /// or the empty string where the path has none.
    pub open spec fn match_key(self) -> Seq<char> {
        match self.text {
            Some(text) => text,
            None => Seq::empty(),
        }
    }
}

impl View for PathText {
    type V = SpecPathText;

    open spec fn view(&self) -> SpecPathText {
        SpecPathText {
            text: match self.text {
                Some(text) => Some(text@),
                None => None,
            },
            display: self.display@,
        }
    }
}

impl PathText {
    /// A path that is valid text: matched and shown by the same string.
    pub fn from_text(text: &str) -> (path: PathText)
        ensures
            path@ == (SpecPathText { text: Some(text@), display: text@ }),
            path@.wf(),
    {
        PathText { text: Some(text.to_owned()), display: text.to_owned() }
    }

    /// A path that has no form as valid text, with the string that shows it.
    pub fn lossy(display: &str) -> (path: PathText)
        ensures
            path@ == (SpecPathText { text: None, display: display@ }),
            path@.wf(),
    {
        PathText { text: None, display: display.to_owned() }
    }

    /// The string that ignore patterns are matched against.
    pub fn match_key(&self) -> (key: &str)
        ensures
            key@ == self@.match_key(),
    {
        match &self.text {
            Some(text) => text.as_str(),
            None => {
                proof {
                    reveal_strlit("");
                }
                ""
            },
        }
    }

    /// The string that stands for the path in the output.
    pub fn display(&self) -> (shown: &str)
        ensures
            shown@ == self@.display,
    {
        self.display.as_str()
    }
}

} // verus!
