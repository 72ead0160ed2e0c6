//! Failures of a chain provider.

use vstd::prelude::*;

verus! {

/// Why a ledger or block could not be had. Both are worth retrying.
#[derive(Clone, Debug, PartialEq, Eq)]
pub enum ProviderError {
    /// Transport failure or timeout.
    Network(String),
    /// The response does not have the expected shape; holds the text that
    /// could not be read.
    Decode(String),
}

} // verus!
