use vstd::prelude::*;

verus! {

/// The wake call that a releasing step asks its caller to issue on a word.
#[derive(Debug, Clone, Copy, PartialEq, Eq, Structural)]
pub enum Wake {
    /// No thread can be parked on the word: the wake call is skipped.
    Nothing,
    /// Wake one thread parked on the word.
    One,
    /// Wake every thread parked on the word.
    All,
}

} // verus!
