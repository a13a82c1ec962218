//! The tri-state optional value that generated record types use for
//! properties a producer may leave out of a message entirely.

use vstd::prelude::*;

verus! {

/// A value that a message producer either left out entirely (`Absent`) or
/// supplied (`Present`).
///
/// This is distinct from a nullable value: `Absent` means the property did
/// not appear in the message at all, while a present value may itself be an
/// optional type. An elective field is omitted from serialized output when
/// `Absent` and is defaulted to `Absent` when missing on input.
#[derive(Debug, Clone, PartialEq)]
pub enum Elective<T> {
    /// The producer did not include the property.
    Absent,
    /// The producer supplied this value for the property.
    Present(T),
}

impl<T> Elective<T> {
    /// True exactly when the value is `Absent`.
    pub fn is_absent(&self) -> (r: bool)
        ensures
            r == (self is Absent),
    {
        match self {
            Elective::Absent => true,
            Elective::Present(_) => false,
        }
    }

    /// True exactly when the value is `Present`.
    pub fn is_present(&self) -> (r: bool)
        ensures
            r == (self is Present),
    {
        match self {
            Elective::Absent => false,
            Elective::Present(_) => true,
        }
    }
}

impl<T> Default for Elective<T> {
    /// Default construction yields `Absent`.
    fn default() -> (r: Self)
        ensures
            r is Absent,
    {
        Elective::Absent
    }
}

} // verus!
