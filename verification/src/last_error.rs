//! The slot that keeps the description of the last failed window creation.

use crate::text::{has_nul, holds_nul_char, lemma_encoding_holds_nul};
use vstd::prelude::*;
use vstd::string::StringSliceAdditionalSpecFns;

verus! {

/// The slot for the description of the most recent failed window creation.
///
/// A thread that uses the boundary keeps one slot. It starts empty, every
/// failed creation overwrites it, and nothing else touches it. What it holds
/// is handed out as a C string, so it never holds the NUL character.
pub struct LastError {
    message: Option<String>,
}

impl View for LastError {
    type V = Option<Seq<char>>;

    closed spec fn view(&self) -> Option<Seq<char>> {
        match self.message {
            Some(text) => Some(text@),
            None => None,
        }
    }
}

/// What a slot holds once a failure with the description `text` has been
/// recorded: the description, or nothing where the description holds the NUL
/// character and so cannot be handed out as a C string.
pub open spec fn recorded(text: Seq<char>) -> Option<Seq<char>> {
    if holds_nul_char(text) {
        None
    } else {
        Some(text)
    }
}

impl LastError {
    #[verifier::type_invariant]
    spec fn nul_free(self) -> bool {
        self.message matches Some(text) ==> !holds_nul_char(text@)
    }

    /// The empty slot a thread starts with.
    pub fn new() -> (slot: LastError)
        ensures
            slot@ is None,
    {
        LastError { message: None }
    }
}

/// Records the description of a failure, in place of whatever the slot held.
pub fn set_last_error(last_error: &mut LastError, msg: &str)
    ensures
        final(last_error)@ == recorded(msg@),
{
    proof {
        lemma_encoding_holds_nul(msg@);
    }
    if has_nul(msg.as_bytes()) {
        last_error.message = None;
    } else {
        last_error.message = Some(msg.to_owned());
    }
}

/// The description of the most recent failure, or nothing if no creation has
/// failed or the last description could not be kept.
pub fn minifb_get_last_error(last_error: &LastError) -> (text: Option<&str>)
    ensures
        text is Some <==> last_error@ is Some,
        text matches Some(s) ==> last_error@ == Some(s@) && !holds_nul_char(s@),
{
    proof {
        use_type_invariant(last_error);
    }
    match &last_error.message {
        Some(text) => Some(text.as_str()),
        None => None,
    }
}

} // verus!
