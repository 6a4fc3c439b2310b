//! The failures that the catalog and the entry points report.

use vstd::prelude::*;

verus! {

/// Why an operation on the wheel was refused.
#[derive(Clone, Copy, Debug, PartialEq, Eq, Structural)]
pub enum SpinError {
    /// An append was attempted on a catalog that is already full.
    CountOverflowAddItem,
    /// A set operation named a slot index at or past the capacity.
    IndexOverflowSetItem,
    /// The host clock, from which the entropy sample is drawn, could not be read.
    EntropyUnavailable,
    /// No vault authority could be derived for the program.
    AuthorityUnavailable,
}

impl SpinError {
    /// The text that describes the failure.
    pub open spec fn spec_message(self) -> Seq<char> {
        match self {
            SpinError::CountOverflowAddItem => "Count Overflow To Add Item"@,
            SpinError::IndexOverflowSetItem => "Index Overflow To Set Item"@,
            SpinError::EntropyUnavailable => "Entropy Source Unavailable"@,
            SpinError::AuthorityUnavailable => "Vault Authority Unavailable"@,
        }
    }

    /// The text that describes the failure.
    pub fn message(&self) -> (text: &'static str)
        ensures
            text@ == self.spec_message(),
    {
        match self {
            SpinError::CountOverflowAddItem => "Count Overflow To Add Item",
            SpinError::IndexOverflowSetItem => "Index Overflow To Set Item",
            SpinError::EntropyUnavailable => "Entropy Source Unavailable",
            SpinError::AuthorityUnavailable => "Vault Authority Unavailable",
        }
    }
}

} // verus!
