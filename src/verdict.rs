//! Verdicts and their one-line rendering.
use vstd::prelude::*;

use crate::detector::{guess_of, has_non_ascii};

verus! {

/// What is reported for a stream: an encoding name and whether it is sure.
pub struct Verdict {
    pub name: String,
    pub confident: bool,
}

impl View for Verdict {
    type V = (Seq<char>, bool);

    open spec fn view(&self) -> (Seq<char>, bool) {
        (self.name@, self.confident)
    }
}

/// The verdict owed for a stream fed in the given buffers: a stream of 7-bit
/// bytes is "ASCII" and sure, whatever the detector would say; any other
/// stream gets the detector's guess once an empty last buffer has closed it.
pub open spec fn verdict_of(chunks: Seq<Seq<u8>>) -> (Seq<char>, bool) {
    if has_non_ascii(chunks.flatten()) {
        guess_of(chunks.push(Seq::empty()))
    } else {
        ("ASCII"@, true)
    }
}

/// The text of a verdict's line: `?` first for an unsure verdict, then the
/// name, then a tab and the path when there is one.
pub open spec fn line_of(verdict: (Seq<char>, bool), path: Option<Seq<char>>) -> Seq<char> {
    let head = if verdict.1 {
        verdict.0
    } else {
        "?"@ + verdict.0
    };
    match path {
        Some(p) => head + "\t"@ + p,
        None => head,
    }
}

impl Verdict {
    /// The line (without its line break) that reports this verdict, followed
    /// by `path` when one is given.
    pub fn line(&self, path: Option<&str>) -> (r: String)
        ensures
            r@ == line_of(self@, match path {
                Some(p) => Some(p@),
                None => None,
            }),
    {
        let head = if self.confident {
            String::from_str("")
        } else {
            String::from_str("?")
        };
        let head = head.concat(self.name.as_str());
        proof {
            reveal_strlit("");
            assert(head@ == if self.confident { self.name@ } else { "?"@ + self.name@ });
        }
        match path {
            Some(p) => head.concat("\t").concat(p),
            None => head,
        }
    }
}

} // verus!
