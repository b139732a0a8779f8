use vstd::prelude::*;

verus! {

/// Seconds after creation from which the payer may reclaim an unsettled booking.
pub const STALE_AFTER_SECS: u64 = 86400;

/// An identity known to the vault: an account, a token, or an oracle.
#[derive(Clone, Copy, Debug, PartialEq, Eq, Structural)]
pub struct Principal {
    pub id: u64,
}

/// Where a booking stands in its lifecycle.
#[derive(Clone, Copy, Debug, PartialEq, Eq, Structural)]
pub enum BookingStatus {
    Pending,
    Finalized,
    Reclaimed,
}

/// One booking's custody record.
#[derive(Clone, Copy, Debug, PartialEq, Eq, Structural)]
pub struct Escrow {
    pub id: u64,
    pub payer: Principal,
    pub payee: Principal,
    pub rate: i128,
    pub booked_duration: u64,
    pub deposit: i128,
    pub status: BookingStatus,
    pub created_at: u64,
}

/// A token movement between the vault's custody and a party.
#[derive(Clone, Copy, Debug, PartialEq, Eq, Structural)]
pub enum Transfer {
    /// `amount` units move from `from` into the vault.
    Deposit { from: Principal, amount: i128 },
    /// `amount` units move out of the vault to `to`.
    Payout { to: Principal, amount: i128 },
}

/// The keys under which a host keeps the vault's durable state.
#[derive(Clone, Copy, Debug, PartialEq, Eq, Structural)]
pub enum DataKey {
    Admin,
    Token,
    Oracle,
    BookingCount,
    Booking(u64),
}

impl Escrow {
    /// The record's own invariant: a valid booking request and the deposit it fixed.
    pub open spec fn wf(self) -> bool {
        &&& self.rate >= 0
        &&& self.booked_duration > 0
        &&& self.deposit == self.rate * self.booked_duration
    }
}

} // verus!
