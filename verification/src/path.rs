//! Paths as they are shown to a reader.

use vstd::prelude::*;
use crate::text::chars_of;

verus! {

broadcast use vstd::string::group_string_axioms;

/// The convention of the system that a path comes from.
#[derive(Debug, Copy, Clone)]
pub enum Platform {
    /// Full paths may begin with the verbatim prefix.
    Windows,
    Other,
}

/// A path as the system displays it.
#[derive(Debug)]
pub struct PathText {
    pub text: String,
    pub platform: Platform,
}

/// The prefix that marks a verbatim path: two backslashes, a question mark
/// and a backslash.
pub open spec fn verbatim_prefix() -> Seq<char> {
    seq!['\\', '\\', '?', '\\']
}

/// The displayed path without the verbatim prefix, where the platform has
/// one and the path begins with it.
pub open spec fn humanized_text(text: Seq<char>, platform: Platform) -> Seq<char> {
    if platform is Windows && verbatim_prefix().is_prefix_of(text) {
        text.skip(4)
    } else {
        text
    }
}

pub trait AsHumanizedString {
    /// The path as a reader wants to see it.
    spec fn humanized(&self) -> Seq<char>;

    fn as_humanized_string(&self) -> (s: String)
        ensures
            s@ == self.humanized(),
    ;
}

impl AsHumanizedString for PathText {
    open spec fn humanized(&self) -> Seq<char> {
        humanized_text(self.text@, self.platform)
    }

    fn as_humanized_string(&self) -> (s: String) {
        match self.platform {
            Platform::Other => self.text.clone(),
            Platform::Windows => {
                let shown = chars_of(self.text.as_str());
                if shown.len() >= 4 && shown[0] == '\\' && shown[1] == '\\' && shown[2] == '?'
                    && shown[3] == '\\' {
                    assert(shown@.subrange(0, 4) =~= verbatim_prefix());
                    let mut s = String::new();
                    let mut i: usize = 4;
                    while i < shown.len()
                        invariant
                            4 <= i <= shown.len(),
                            s@ == shown@.subrange(4, i as int),
                        decreases shown.len() - i,
                    {
                        s.push(shown[i]);
                        i += 1;
                    }
                    assert(shown@.subrange(4, shown.len() as int) =~= shown@.skip(4));
                    s
                } else {
                    assert(!verbatim_prefix().is_prefix_of(shown@)) by {
                        if verbatim_prefix().is_prefix_of(shown@) {
                            let front = shown@.subrange(0, 4);
                            assert(front == verbatim_prefix());
                            assert(front[0] == shown@[0] && front[1] == shown@[1] && front[2]
                                == shown@[2] && front[3] == shown@[3]);
                        }
                    }
                    self.text.clone()
                }
            },
        }
    }
}

} // verus!
