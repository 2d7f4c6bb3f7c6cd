//! What the mapper reads of a failure that it wraps.

use vstd::prelude::*;

verus! {

/// A failure raised by a collaborator (the streaming transport, the
/// persistence layer, or the generic error mechanism), held as the three
/// texts that classification and rendering read from it.
#[derive(Clone, Debug, PartialEq, Eq)]
pub struct Cause {
    /// The failure's display text.
    pub display: String,
    /// The failure's debug text.
    pub debug: String,
    /// The display text of the failure's own underlying cause, one level
    /// further down the chain, where it has one.
    pub source: Option<String>,
}

/// The mathematical value of a [`Cause`].
pub ghost struct CauseView {
    pub display: Seq<char>,
    pub debug: Seq<char>,
    pub source: Option<Seq<char>>,
}

/// The characters of an optional text.
pub open spec fn text_of(text: Option<String>) -> Option<Seq<char>> {
    match text {
        Some(t) => Some(t@),
        None => None,
    }
}

impl View for Cause {
    type V = CauseView;

    open spec fn view(&self) -> CauseView {
        CauseView { display: self.display@, debug: self.debug@, source: text_of(self.source) }
    }
}

impl Cause {
    /// A failure with the given display and debug texts and, in `source`,
    /// the display text of its underlying cause if it has one.
    pub fn new(display: String, debug: String, source: Option<String>) -> (cause: Cause)
        ensures
            cause@ == (CauseView { display: display@, debug: debug@, source: text_of(source) }),
    {
        Cause { display, debug, source }
    }
}

} // verus!
