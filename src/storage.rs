use vstd::prelude::*;
use crate::error::VaultError;
use crate::types::{BookingStatus, Escrow, Principal};

verus! {

/// The vault's durable state: its configuration and the booking store.
///
/// Booking ids are dense and start at 1: the booking with id `k` is the
/// `k`-th record of `bookings`, and the next id handed out is one past the
/// number of records.
pub struct PaymentVaultContract {
    pub(crate) admin: Option<Principal>,
    pub(crate) token: Option<Principal>,
    pub(crate) oracle: Option<Principal>,
    pub(crate) bookings: Vec<Escrow>,
}

/// The mathematical model of a vault.
pub struct VaultModel {
    pub admin: Option<Principal>,
    pub token: Option<Principal>,
    pub oracle: Option<Principal>,
    pub bookings: Seq<Escrow>,
}

impl View for PaymentVaultContract {
    type V = VaultModel;

    closed spec fn view(&self) -> VaultModel {
        VaultModel {
            admin: self.admin,
            token: self.token,
            oracle: self.oracle,
            bookings: self.bookings@,
        }
    }
}

impl VaultModel {
    /// All three identities are set.
    pub open spec fn configured(self) -> bool {
        &&& self.admin is Some
        &&& self.token is Some
        &&& self.oracle is Some
    }

    pub open spec fn has_booking(self, id: u64) -> bool {
        1 <= id && id <= self.bookings.len()
    }

    /// The record of booking `id`; meaningful where `has_booking(id)`.
    pub open spec fn escrow(self, id: u64) -> Escrow {
        self.bookings[id - 1]
    }

    /// The id the next booking receives.
    pub open spec fn next_id(self) -> int {
        self.bookings.len() as int + 1
    }

    /// The vault with booking `id` moved to `status`, every other field kept.
    pub open spec fn with_status(self, id: u64, status: BookingStatus) -> VaultModel {
        VaultModel {
            bookings: self.bookings.update(id - 1, Escrow { status, ..self.escrow(id) }),
            ..self
        }
    }

    /// The vault's invariant: the configuration is set all at once, bookings
    /// exist only in a configured vault, every record keeps its own invariant
    /// and sits under its own id.
    pub open spec fn wf(self) -> bool {
        &&& (self.admin is Some <==> self.token is Some)
        &&& (self.admin is Some <==> self.oracle is Some)
        &&& (self.bookings.len() > 0 ==> self.configured())
        &&& self.bookings.len() < u64::MAX
        &&& forall|i: int|
            0 <= i < self.bookings.len() ==> {
                &&& (#[trigger] self.bookings[i]).id == i + 1
                &&& self.bookings[i].wf()
            }
    }
}

impl PaymentVaultContract {
    /// An empty, unconfigured vault.
    pub fn new() -> (r: Self)
        ensures
            r@.admin is None,
            r@.token is None,
            r@.oracle is None,
            r@.bookings.len() == 0,
            r@.wf(),
    {
        PaymentVaultContract { admin: None, token: None, oracle: None, bookings: Vec::new() }
    }

    pub open spec fn wf(&self) -> bool {
        self@.wf()
    }

    /// Rebuilds a vault from stored parts, or `None` where the parts break the
    /// vault's invariant.
    pub fn restore(
        admin: Option<Principal>,
        token: Option<Principal>,
        oracle: Option<Principal>,
        bookings: Vec<Escrow>,
    ) -> (r: Option<Self>)
        ensures
            r is Some <==> (VaultModel { admin, token, oracle, bookings: bookings@ }).wf(),
            r is Some ==> r->Some_0@ == (VaultModel { admin, token, oracle, bookings: bookings@ }),
    {
        let model = Ghost(VaultModel { admin, token, oracle, bookings: bookings@ });
        if admin.is_some() != token.is_some() || admin.is_some() != oracle.is_some() {
            return None;
        }
        let n = bookings.len();
        if n > 0 && admin.is_none() {
            return None;
        }
        if n as u64 == u64::MAX {
            return None;
        }
        let mut i: usize = 0;
        while i < n
            invariant
                n == bookings@.len(),
                n < u64::MAX,
                i <= n,
                forall|j: int|
                    0 <= j < i ==> {
                        &&& (#[trigger] bookings@[j]).id == j + 1
                        &&& bookings@[j].wf()
                    },
            decreases n - i,
        {
            let e = bookings[i];
            let ok_shape = e.id == i as u64 + 1 && e.rate >= 0 && e.booked_duration > 0;
            if !ok_shape {
                return None;
            }
            match e.rate.checked_mul(e.booked_duration as i128) {
                Some(d) => {
                    if d != e.deposit {
                        return None;
                    }
                },
                None => {
                    return None;
                },
            }
            i += 1;
        }
        let vault = PaymentVaultContract { admin, token, oracle, bookings };
        proof {
            assert(vault@ == model@);
        }
        Some(vault)
    }

    /// All stored records, in id order.
    pub fn bookings(&self) -> (r: &Vec<Escrow>)
        ensures
            r@ == self@.bookings,
    {
        &self.bookings
    }

    /// The record stored under `booking_id`, as a copy.
    pub fn get_booking(&self, booking_id: u64) -> (r: Result<Escrow, VaultError>)
        ensures
            self@.has_booking(booking_id) ==> r == Ok::<Escrow, VaultError>(self@.escrow(booking_id)),
            !self@.has_booking(booking_id) ==> r == Err::<Escrow, VaultError>(VaultError::BookingNotFound),
    {
        let n = self.bookings.len() as u64;
        if booking_id >= 1 && booking_id <= n {
            Ok(self.bookings[(booking_id - 1) as usize])
        } else {
            Err(VaultError::BookingNotFound)
        }
    }

    /// Whether the vault has been configured.
    pub fn is_configured(&self) -> (r: bool)
        ensures
            r == self@.configured(),
    {
        self.admin.is_some() && self.token.is_some() && self.oracle.is_some()
    }

    pub(crate) fn push_booking(&mut self, e: Escrow)
        ensures
            final(self)@ == (VaultModel { bookings: old(self)@.bookings.push(e), ..old(self)@ }),
    {
        self.bookings.push(e);
    }

    pub(crate) fn set_status(&mut self, booking_id: u64, status: BookingStatus)
        requires
            old(self)@.has_booking(booking_id),
        ensures
            final(self)@ == old(self)@.with_status(booking_id, status),
    {
        let i = (booking_id - 1) as usize;
        let e = self.bookings[i];
        self.bookings.set(i, Escrow { status, ..e });
        proof {
            assert(self@.bookings =~= old(self)@.with_status(booking_id, status).bookings);
        }
    }

    /// The id the next booking would receive, if the counter has room for it.
    pub fn next_booking_id(&self) -> (r: Option<u64>)
        requires
            self@.wf(),
        ensures
            r is Some <==> self@.next_id() < u64::MAX,
            r is Some ==> r->Some_0 == self@.next_id(),
    {
        let n = self.bookings.len() as u64;
        if n < u64::MAX - 1 {
            Some(n + 1)
        } else {
            None
        }
    }
}

/// Whether an administrator has been recorded.
pub fn has_admin(vault: &PaymentVaultContract) -> (r: bool)
    ensures
        r == vault@.admin is Some,
{
    vault.admin.is_some()
}

pub(crate) fn set_admin(vault: &mut PaymentVaultContract, admin: Principal)
    ensures
        final(vault)@ == (VaultModel { admin: Some(admin), ..old(vault)@ }),
{
    vault.admin = Some(admin);
}

/// The administrator, if one has been recorded.
pub fn get_admin(vault: &PaymentVaultContract) -> (r: Option<Principal>)
    ensures
        r == vault@.admin,
{
    vault.admin
}

pub(crate) fn set_token(vault: &mut PaymentVaultContract, token: Principal)
    ensures
        final(vault)@ == (VaultModel { token: Some(token), ..old(vault)@ }),
{
    vault.token = Some(token);
}

/// The payment token, or `NotInitialized`.
pub fn get_token(vault: &PaymentVaultContract) -> (r: Result<Principal, VaultError>)
    ensures
        vault@.token is Some ==> r == Ok::<Principal, VaultError>(vault@.token->Some_0),
        vault@.token is None ==> r == Err::<Principal, VaultError>(VaultError::NotInitialized),
{
    match vault.token {
        Some(t) => Ok(t),
        None => Err(VaultError::NotInitialized),
    }
}

pub(crate) fn set_oracle(vault: &mut PaymentVaultContract, oracle: Principal)
    ensures
        final(vault)@ == (VaultModel { oracle: Some(oracle), ..old(vault)@ }),
{
    vault.oracle = Some(oracle);
}

/// The settlement oracle, or `NotInitialized`.
pub fn get_oracle(vault: &PaymentVaultContract) -> (r: Result<Principal, VaultError>)
    ensures
        vault@.oracle is Some ==> r == Ok::<Principal, VaultError>(vault@.oracle->Some_0),
        vault@.oracle is None ==> r == Err::<Principal, VaultError>(VaultError::NotInitialized),
{
    match vault.oracle {
        Some(o) => Ok(o),
        None => Err(VaultError::NotInitialized),
    }
}

} // verus!
