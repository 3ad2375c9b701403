//! The error conditions of this crate.

use vstd::prelude::*;
use vstd::string::StringExecFns;

verus! {

/// All the error conditions that can arise within this crate.
#[derive(Clone, Copy, Debug, PartialEq, Eq, Structural)]
pub enum Error {
    /// A `char` outside the precomposed Korean syllable range (U+AC00 to
    /// U+D7A3) was tried converting into a `Syllable`.  Carries the
    /// offending character.
    NonKorean(char),
}

impl Error {
    /// A short description of the error.
    pub fn message(&self) -> (r: String)
        ensures
            r@ == "not a precomposed Korean syllable"@,
    {
        match self {
            Error::NonKorean(_) => String::from_str("not a precomposed Korean syllable"),
        }
    }
}

} // verus!
