//! An escrow engine for time-metered bookings between a payer and a payee.
//!
//! A payer funds a booking with `rate * booked_duration` units. A trusted
//! oracle later settles the booking in proportion to the time actually used,
//! or, when no settlement arrives in time, the payer reclaims the whole
//! deposit. Every operation is a verified transition of the vault's state that
//! also returns the token movements the host must carry out in the same
//! all-or-nothing unit of work.

pub mod contract;
pub mod error;
pub mod lifecycle;
pub mod registry;
pub mod settlement;
pub mod storage;
pub mod types;

pub use error::VaultError;
pub use storage::PaymentVaultContract;
pub use types::{BookingStatus, DataKey, Escrow, Principal, Transfer};
