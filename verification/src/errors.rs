//! Error types returned by the library.

use vstd::prelude::*;

verus! {

/// Failure of the adapter to find an account it needs.
#[derive(Clone, Copy, Debug, PartialEq, Eq, Structural)]
pub enum AmmError {
    AccountNotFound,
}

impl AmmError {
    /// The human-readable message of this error.
    pub fn message(&self) -> (s: String)
        ensures
            s@ == "Account not found"@,
    {
        "Account not found".to_string()
    }
}

/// Oracle bytes that do not have the shape their format demands.
#[derive(Clone, Copy, Debug, PartialEq, Eq, Structural)]
pub enum DecodeError {
    Malformed,
}

/// A decoded oracle price that cannot be used.
#[derive(Clone, Copy, Debug, PartialEq, Eq, Structural)]
pub enum OracleError {
    /// The price was published too long before the current time.
    Stale,
    /// The source exponent is coarser than the precision asked for.
    PrecisionUnavailable,
    /// The rescaled price is negative or does not fit in 64 bits.
    OutOfRange,
}

/// A checked arithmetic step whose result cannot be represented.
#[derive(Clone, Copy, Debug, PartialEq, Eq, Structural)]
pub struct OverflowError;

/// Any failure of a refresh or a quote.
#[derive(Clone, Copy, Debug, PartialEq, Eq, Structural)]
pub enum Error {
    Decode(DecodeError),
    Oracle(OracleError),
    Overflow(OverflowError),
    Amm(AmmError),
    /// The price used for quoting is older than the pool allows.
    StalePriceFeed,
    /// The input mint is neither of the pool's two mints.
    UnknownMint,
}

} // verus!
