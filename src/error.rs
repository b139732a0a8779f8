use vstd::prelude::*;

verus! {

/// Typed failures of the vault's operations.
#[derive(Copy, Clone, Debug, PartialEq, Eq, Structural)]
pub enum VaultError {
    /// The vault has not been configured yet.
    NotInitialized,
    /// The vault was configured before.
    AlreadyInitialized,
    /// The principal that authorized the call is not the one the operation needs.
    NotAuthorized,
    /// A booking was requested with a negative rate.
    InvalidRate,
    /// A booking was requested with a zero duration.
    InvalidDuration,
    /// The deposit, or the booking counter, does not fit its integer type.
    Overflow,
    /// No booking has the given id.
    BookingNotFound,
    /// The booking is no longer pending.
    InvalidState,
    /// The staleness window of the booking has not elapsed yet.
    TooEarly,
}

} // verus!
