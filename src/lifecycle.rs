use vstd::prelude::*;
use crate::error::VaultError;
use crate::settlement::{
    compute_deposit, deposit_for, lemma_settlement_conserves_deposit, settlement_payouts,
    settlement_transfers, total_outflow,
};
use crate::storage::{get_oracle, PaymentVaultContract, VaultModel};
use crate::types::{BookingStatus, Escrow, Principal, Transfer, STALE_AFTER_SECS};

verus! {

// ---- The booking lifecycle as a state machine over `VaultModel` ----

/// The outcome of a booking request: the new id and the deposit to pull in,
/// or the first precondition that fails.
pub open spec fn create_result(
    v: VaultModel,
    signer: Principal,
    payer: Principal,
    payee: Principal,
    rate: i128,
    booked_duration: u64,
) -> Result<(u64, Transfer), VaultError> {
    if !v.configured() {
        Err(VaultError::NotInitialized)
    } else if signer != payer {
        Err(VaultError::NotAuthorized)
    } else if rate < 0 {
        Err(VaultError::InvalidRate)
    } else if booked_duration == 0 {
        Err(VaultError::InvalidDuration)
    } else if deposit_for(rate, booked_duration) > i128::MAX || v.next_id() >= u64::MAX {
        Err(VaultError::Overflow)
    } else {
        Ok(
            (
                v.next_id() as u64,
                Transfer::Deposit { from: payer, amount: deposit_for(rate, booked_duration) as i128 },
            ),
        )
    }
}

/// The record a successful booking request stores.
pub open spec fn new_escrow(
    v: VaultModel,
    payer: Principal,
    payee: Principal,
    rate: i128,
    booked_duration: u64,
    now: u64,
) -> Escrow {
    Escrow {
        id: v.next_id() as u64,
        payer,
        payee,
        rate,
        booked_duration,
        deposit: deposit_for(rate, booked_duration) as i128,
        status: BookingStatus::Pending,
        created_at: now,
    }
}

/// The vault after a booking request: one more record on success, unchanged otherwise.
pub open spec fn create_state(
    v: VaultModel,
    signer: Principal,
    payer: Principal,
    payee: Principal,
    rate: i128,
    booked_duration: u64,
    now: u64,
) -> VaultModel {
    if create_result(v, signer, payer, payee, rate, booked_duration) is Ok {
        VaultModel {
            bookings: v.bookings.push(new_escrow(v, payer, payee, rate, booked_duration, now)),
            ..v
        }
    } else {
        v
    }
}

/// The outcome of a settlement request: the payouts, or the first precondition that fails.
pub open spec fn finalize_result(
    v: VaultModel,
    signer: Principal,
    id: u64,
    actual_duration: u64,
) -> Result<Seq<Transfer>, VaultError> {
    if !v.configured() {
        Err(VaultError::NotInitialized)
    } else if !v.has_booking(id) {
        Err(VaultError::BookingNotFound)
    } else if v.escrow(id).status != BookingStatus::Pending {
        Err(VaultError::InvalidState)
    } else if Some(signer) != v.oracle {
        Err(VaultError::NotAuthorized)
    } else {
        Ok(settlement_transfers(v.escrow(id), actual_duration))
    }
}

/// The vault after a settlement request.
pub open spec fn finalize_state(
    v: VaultModel,
    signer: Principal,
    id: u64,
    actual_duration: u64,
) -> VaultModel {
    if finalize_result(v, signer, id, actual_duration) is Ok {
        v.with_status(id, BookingStatus::Finalized)
    } else {
        v
    }
}

/// Whether the staleness window of booking `e` has elapsed at ledger time `now`.
pub open spec fn is_stale(e: Escrow, now: u64) -> bool {
    now >= e.created_at + STALE_AFTER_SECS
}

/// The outcome of a reclaim request: the refund of the whole deposit, or the
/// first precondition that fails.
pub open spec fn reclaim_result(v: VaultModel, caller: Principal, id: u64, now: u64) -> Result<
    Transfer,
    VaultError,
> {
    if !v.configured() {
        Err(VaultError::NotInitialized)
    } else if !v.has_booking(id) {
        Err(VaultError::BookingNotFound)
    } else if v.escrow(id).status != BookingStatus::Pending {
        Err(VaultError::InvalidState)
    } else if caller != v.escrow(id).payer {
        Err(VaultError::NotAuthorized)
    } else if !is_stale(v.escrow(id), now) {
        Err(VaultError::TooEarly)
    } else {
        Ok(Transfer::Payout { to: v.escrow(id).payer, amount: v.escrow(id).deposit })
    }
}

/// The vault after a reclaim request.
pub open spec fn reclaim_state(v: VaultModel, caller: Principal, id: u64, now: u64) -> VaultModel {
    if reclaim_result(v, caller, id, now) is Ok {
        v.with_status(id, BookingStatus::Reclaimed)
    } else {
        v
    }
}

/// The payouts of an executable result, seen as a sequence.
pub open spec fn payouts_view(r: Result<Vec<Transfer>, VaultError>) -> Result<
    Seq<Transfer>,
    VaultError,
> {
    match r {
        Ok(ts) => Ok(ts@),
        Err(e) => Err(e),
    }
}

proof fn lemma_with_status_wf(v: VaultModel, id: u64, status: BookingStatus)
    requires
        v.wf(),
        v.has_booking(id),
    ensures
        v.with_status(id, status).wf(),
        v.with_status(id, status).escrow(id) == (Escrow { status, ..v.escrow(id) }),
        v.with_status(id, status).bookings.len() == v.bookings.len(),
{
    let w = v.with_status(id, status);
    assert forall|i: int| 0 <= i < w.bookings.len() implies (#[trigger] w.bookings[i]).id == i + 1
        && w.bookings[i].wf() by {
        assert(v.bookings[i].id == i + 1);
    }
}

// ---- Laws of the lifecycle ----

/// A valid booking request on a configured vault succeeds: it pulls exactly
/// `rate * booked_duration` from the payer and stores a pending booking under
/// the next id with exactly that deposit.
pub proof fn lemma_create_deposits_exactly(
    v: VaultModel,
    payer: Principal,
    payee: Principal,
    rate: i128,
    booked_duration: u64,
    now: u64,
)
    requires
        v.wf(),
        v.configured(),
        rate >= 0,
        booked_duration > 0,
        rate * booked_duration <= i128::MAX,
        v.next_id() < u64::MAX,
    ensures
        ({
            let id = v.next_id() as u64;
            let w = create_state(v, payer, payer, payee, rate, booked_duration, now);
            &&& create_result(v, payer, payer, payee, rate, booked_duration) == Ok::<
                (u64, Transfer),
                VaultError,
            >((id, Transfer::Deposit { from: payer, amount: (rate * booked_duration) as i128 }))
            &&& total_outflow(seq![Transfer::Deposit { from: payer, amount: (rate * booked_duration) as i128 }])
                == -(rate * booked_duration)
            &&& w.has_booking(id)
            &&& w.escrow(id).status == BookingStatus::Pending
            &&& w.escrow(id).payer == payer
            &&& w.escrow(id).payee == payee
            &&& w.escrow(id).deposit == rate * booked_duration
            &&& w.wf()
        }),
{
    let t = Transfer::Deposit { from: payer, amount: (rate * booked_duration) as i128 };
    assert(seq![t].drop_last() =~= Seq::<Transfer>::empty());
    assert(total_outflow(Seq::<Transfer>::empty()) == 0);
    assert(seq![t].last() == t);
    let e = new_escrow(v, payer, payee, rate, booked_duration, now);
    let w = create_state(v, payer, payer, payee, rate, booked_duration, now);
    assert(w.bookings == v.bookings.push(e));
    assert forall|i: int| 0 <= i < w.bookings.len() implies (#[trigger] w.bookings[i]).id == i + 1
        && w.bookings[i].wf() by {
        if i < v.bookings.len() {
            assert(w.bookings[i] == v.bookings[i]);
        }
    }
}

/// A finalized booking is terminal: settling it again or reclaiming it fails
/// with `InvalidState`, whoever asks, and leaves the vault unchanged, so no
/// funds move.
pub proof fn lemma_finalized_is_terminal(
    v: VaultModel,
    id: u64,
    signer: Principal,
    actual_duration: u64,
    caller: Principal,
    now: u64,
)
    requires
        v.wf(),
        v.has_booking(id),
        v.escrow(id).status == BookingStatus::Finalized,
    ensures
        finalize_result(v, signer, id, actual_duration) == Err::<Seq<Transfer>, VaultError>(
            VaultError::InvalidState,
        ),
        finalize_state(v, signer, id, actual_duration) == v,
        reclaim_result(v, caller, id, now) == Err::<Transfer, VaultError>(VaultError::InvalidState),
        reclaim_state(v, caller, id, now) == v,
{
}

/// A reclaimed booking is terminal: reclaiming it again or settling it fails
/// with `InvalidState`, whoever asks, and leaves the vault unchanged, so no
/// funds move.
pub proof fn lemma_reclaimed_is_terminal(
    v: VaultModel,
    id: u64,
    signer: Principal,
    actual_duration: u64,
    caller: Principal,
    now: u64,
)
    requires
        v.wf(),
        v.has_booking(id),
        v.escrow(id).status == BookingStatus::Reclaimed,
    ensures
        finalize_result(v, signer, id, actual_duration) == Err::<Seq<Transfer>, VaultError>(
            VaultError::InvalidState,
        ),
        finalize_state(v, signer, id, actual_duration) == v,
        reclaim_result(v, caller, id, now) == Err::<Transfer, VaultError>(VaultError::InvalidState),
        reclaim_state(v, caller, id, now) == v,
{
}

/// After a successful settlement, a second settlement or a reclaim of the same
/// booking fails with `InvalidState` and changes nothing.
pub proof fn lemma_settlement_happens_once(
    v: VaultModel,
    signer: Principal,
    id: u64,
    actual_duration: u64,
    signer2: Principal,
    actual_duration2: u64,
    caller: Principal,
    now: u64,
)
    requires
        v.wf(),
        finalize_result(v, signer, id, actual_duration) is Ok,
    ensures
        ({
            let w = finalize_state(v, signer, id, actual_duration);
            &&& w.escrow(id).status == BookingStatus::Finalized
            &&& finalize_result(w, signer2, id, actual_duration2) == Err::<Seq<Transfer>, VaultError>(
                VaultError::InvalidState,
            )
            &&& finalize_state(w, signer2, id, actual_duration2) == w
            &&& reclaim_result(w, caller, id, now) == Err::<Transfer, VaultError>(
                VaultError::InvalidState,
            )
            &&& reclaim_state(w, caller, id, now) == w
        }),
{
    lemma_with_status_wf(v, id, BookingStatus::Finalized);
    let w = finalize_state(v, signer, id, actual_duration);
    lemma_finalized_is_terminal(w, id, signer2, actual_duration2, caller, now);
}

/// After a successful reclaim, a second reclaim or a settlement of the same
/// booking fails with `InvalidState` and changes nothing.
pub proof fn lemma_reclaim_happens_once(
    v: VaultModel,
    caller: Principal,
    id: u64,
    now: u64,
    caller2: Principal,
    now2: u64,
    signer: Principal,
    actual_duration: u64,
)
    requires
        v.wf(),
        reclaim_result(v, caller, id, now) is Ok,
    ensures
        ({
            let w = reclaim_state(v, caller, id, now);
            &&& w.escrow(id).status == BookingStatus::Reclaimed
            &&& reclaim_result(w, caller2, id, now2) == Err::<Transfer, VaultError>(
                VaultError::InvalidState,
            )
            &&& reclaim_state(w, caller2, id, now2) == w
            &&& finalize_result(w, signer, id, actual_duration) == Err::<Seq<Transfer>, VaultError>(
                VaultError::InvalidState,
            )
            &&& finalize_state(w, signer, id, actual_duration) == w
        }),
{
    lemma_with_status_wf(v, id, BookingStatus::Reclaimed);
    let w = reclaim_state(v, caller, id, now);
    lemma_reclaimed_is_terminal(w, id, signer, actual_duration, caller2, now2);
}

/// Reclaiming succeeds only for the booking's own payer and only once the
/// staleness window has elapsed, and then it refunds exactly the deposit. For
/// a pending booking asked by its payer, one second before the threshold gives
/// `TooEarly`, and any time at or after it gives the refund.
pub proof fn lemma_reclaim_gate(v: VaultModel, caller: Principal, id: u64, now: u64)
    requires
        v.wf(),
    ensures
        reclaim_result(v, caller, id, now) is Ok ==> {
            &&& v.has_booking(id)
            &&& caller == v.escrow(id).payer
            &&& now >= v.escrow(id).created_at + STALE_AFTER_SECS
            &&& reclaim_result(v, caller, id, now) == Ok::<Transfer, VaultError>(
                Transfer::Payout { to: caller, amount: v.escrow(id).deposit },
            )
            &&& total_outflow(seq![reclaim_result(v, caller, id, now)->Ok_0]) == v.escrow(id).deposit
        },
        v.has_booking(id) && v.escrow(id).status == BookingStatus::Pending && caller == v.escrow(
            id,
        ).payer ==> {
            &&& (now == v.escrow(id).created_at + STALE_AFTER_SECS - 1 ==> reclaim_result(
                v,
                caller,
                id,
                now,
            ) == Err::<Transfer, VaultError>(VaultError::TooEarly))
            &&& (now >= v.escrow(id).created_at + STALE_AFTER_SECS ==> reclaim_result(
                v,
                caller,
                id,
                now,
            ) == Ok::<Transfer, VaultError>(
                Transfer::Payout { to: caller, amount: v.escrow(id).deposit },
            ))
        },
{
    if reclaim_result(v, caller, id, now) is Ok {
        let t = reclaim_result(v, caller, id, now)->Ok_0;
        assert(seq![t].drop_last() =~= Seq::<Transfer>::empty());
        assert(total_outflow(Seq::<Transfer>::empty()) == 0);
        assert(seq![t].last() == t);
    }
}

// ---- Executable operations ----

impl PaymentVaultContract {
    /// Books `booked_duration` seconds at `rate` from `payer` to `payee`.
    ///
    /// `signer` is the principal whose authorization of this call the host
    /// has checked; it must be the payer. On success the returned deposit
    /// transfer must be carried out in the same all-or-nothing unit as the
    /// state change.
    pub fn create_booking(
        &mut self,
        signer: Principal,
        payer: Principal,
        payee: Principal,
        rate: i128,
        booked_duration: u64,
        now: u64,
    ) -> (r: Result<(u64, Transfer), VaultError>)
        requires
            old(self).wf(),
        ensures
            final(self).wf(),
            r == create_result(old(self)@, signer, payer, payee, rate, booked_duration),
            final(self)@ == create_state(old(self)@, signer, payer, payee, rate, booked_duration, now),
            r is Ok ==> r->Ok_0.1 == (Transfer::Deposit {
                from: payer,
                amount: (rate * booked_duration) as i128,
            }),
            r is Ok ==> final(self)@.has_booking(r->Ok_0.0),
            r is Ok ==> final(self)@.escrow(r->Ok_0.0).status == BookingStatus::Pending,
            r is Ok ==> final(self)@.escrow(r->Ok_0.0).deposit == rate * booked_duration,
    {
        if !self.is_configured() {
            return Err(VaultError::NotInitialized);
        }
        if signer != payer {
            return Err(VaultError::NotAuthorized);
        }
        if rate < 0 {
            return Err(VaultError::InvalidRate);
        }
        if booked_duration == 0 {
            return Err(VaultError::InvalidDuration);
        }
        let deposit = match compute_deposit(rate, booked_duration) {
            Some(d) => d,
            None => {
                return Err(VaultError::Overflow);
            },
        };
        let id = match self.next_booking_id() {
            Some(id) => id,
            None => {
                return Err(VaultError::Overflow);
            },
        };
        let escrow = Escrow {
            id,
            payer,
            payee,
            rate,
            booked_duration,
            deposit,
            status: BookingStatus::Pending,
            created_at: now,
        };
        self.push_booking(escrow);
        proof {
            let v = old(self)@;
            assert(self@.bookings.last() == escrow);
            assert forall|i: int| 0 <= i < self@.bookings.len() implies (
            #[trigger] self@.bookings[i]).id == i + 1 && self@.bookings[i].wf() by {
                if i < v.bookings.len() {
                    assert(self@.bookings[i] == v.bookings[i]);
                }
            }
            assert(self@.bookings =~= v.bookings.push(new_escrow(v, payer, payee, rate, booked_duration, now)));
        }
        Ok((id, Transfer::Deposit { from: payer, amount: deposit }))
    }

    /// Settles booking `booking_id` with the duration the oracle reports.
    ///
    /// `signer` is the principal whose authorization of this call the host
    /// has checked; it must be the configured oracle. The reported duration is
    /// capped at the booked duration. On success the returned payouts must be
    /// carried out in the same all-or-nothing unit as the state change.
    pub fn finalize_session(&mut self, signer: Principal, booking_id: u64, actual_duration: u64) -> (r:
        Result<Vec<Transfer>, VaultError>)
        requires
            old(self).wf(),
        ensures
            final(self).wf(),
            payouts_view(r) == finalize_result(old(self)@, signer, booking_id, actual_duration),
            final(self)@ == finalize_state(old(self)@, signer, booking_id, actual_duration),
            r is Ok ==> total_outflow(r->Ok_0@) == old(self)@.escrow(booking_id).deposit,
    {
        if !self.is_configured() {
            return Err(VaultError::NotInitialized);
        }
        let oracle = match get_oracle(self) {
            Ok(o) => o,
            Err(e) => {
                return Err(e);
            },
        };
        let escrow = match self.get_booking(booking_id) {
            Ok(e) => e,
            Err(e) => {
                return Err(e);
            },
        };
        if escrow.status != BookingStatus::Pending {
            return Err(VaultError::InvalidState);
        }
        if signer != oracle {
            return Err(VaultError::NotAuthorized);
        }
        proof {
            lemma_settlement_conserves_deposit(escrow, actual_duration);
            lemma_with_status_wf(self@, booking_id, BookingStatus::Finalized);
        }
        let payouts = settlement_payouts(&escrow, actual_duration);
        self.set_status(booking_id, BookingStatus::Finalized);
        Ok(payouts)
    }

    /// Hands the whole deposit of a stale, unsettled booking back to its payer.
    ///
    /// `caller` is the principal whose authorization of this call the host has
    /// checked; it must be the booking's payer, and `now` the ledger time. On
    /// success the returned refund must be carried out in the same
    /// all-or-nothing unit as the state change.
    pub fn reclaim_stale_session(&mut self, caller: Principal, booking_id: u64, now: u64) -> (r:
        Result<Transfer, VaultError>)
        requires
            old(self).wf(),
        ensures
            final(self).wf(),
            r == reclaim_result(old(self)@, caller, booking_id, now),
            final(self)@ == reclaim_state(old(self)@, caller, booking_id, now),
    {
        if !self.is_configured() {
            return Err(VaultError::NotInitialized);
        }
        let escrow = match self.get_booking(booking_id) {
            Ok(e) => e,
            Err(e) => {
                return Err(e);
            },
        };
        if escrow.status != BookingStatus::Pending {
            return Err(VaultError::InvalidState);
        }
        if caller != escrow.payer {
            return Err(VaultError::NotAuthorized);
        }
        if now < escrow.created_at || now - escrow.created_at < STALE_AFTER_SECS {
            return Err(VaultError::TooEarly);
        }
        proof {
            lemma_with_status_wf(self@, booking_id, BookingStatus::Reclaimed);
        }
        self.set_status(booking_id, BookingStatus::Reclaimed);
        Ok(Transfer::Payout { to: escrow.payer, amount: escrow.deposit })
    }
}

} // verus!
