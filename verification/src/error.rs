//! What a lookup or a removal can fail on.

use vstd::prelude::*;
use vstd::string::StringExecFns;

verus! {

/// Why a request was not carried out. None of these ends the program: the
/// caller shows a message, or refreshes what it showed and asks again.
#[derive(Clone, Copy, Debug, PartialEq, Eq, Structural, Hash)]
pub enum TrackError {
    /// Nothing is kept under the date or the template name that was given.
    NotFound,
    /// The index is not one of the list that was meant: the list has changed
    /// since the caller read it.
    IndexOutOfRange,
}

impl TrackError {
    /// What [`TrackError::message`] says.
    pub open spec fn message_spec(self) -> Seq<char> {
        match self {
            TrackError::NotFound => "no such entry"@,
            TrackError::IndexOutOfRange => "index out of range"@,
        }
    }

    /// A short text for the error.
    pub fn message(&self) -> (r: String)
        ensures
            r@ == self.message_spec(),
    {
        match self {
            TrackError::NotFound => String::from_str("no such entry"),
            TrackError::IndexOutOfRange => String::from_str("index out of range"),
        }
    }
}

} // verus!
