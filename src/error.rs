//! Errors reported to the scripting layer.
use vstd::prelude::*;

verus! {

/// An error raised by a binding method.
#[derive(Clone, Debug, PartialEq, Eq)]
pub enum Error {
    /// An index or a value lies outside its allowed range.
    Range(String),
}

/// The result of a binding method that may fail.
pub type Fallible<T> = Result<T, Error>;

} // verus!
