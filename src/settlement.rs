use vstd::prelude::*;
use crate::types::{Escrow, Principal, Transfer};

verus! {

/// The deposit a booking at `rate` for `booked_duration` seconds locks.
pub open spec fn deposit_for(rate: i128, booked_duration: u64) -> int {
    rate * booked_duration
}

/// The chargeable part of a reported duration: capped at the booked duration.
pub open spec fn effective_duration(e: Escrow, actual_duration: u64) -> u64 {
    if actual_duration <= e.booked_duration {
        actual_duration
    } else {
        e.booked_duration
    }
}

/// What the payee earns when the booking settles with `actual_duration`.
pub open spec fn payee_share(e: Escrow, actual_duration: u64) -> int {
    e.rate * effective_duration(e, actual_duration)
}

/// What goes back to the payer when the booking settles with `actual_duration`.
pub open spec fn payer_refund(e: Escrow, actual_duration: u64) -> int {
    e.deposit - payee_share(e, actual_duration)
}

/// A payout of `amount` to `to`, left out when there is nothing to pay.
pub open spec fn payout_if_positive(to: Principal, amount: int) -> Seq<Transfer> {
    if amount > 0 {
        seq![Transfer::Payout { to, amount: amount as i128 }]
    } else {
        Seq::empty()
    }
}

/// The payouts of a settlement: the payee's share first, then the payer's refund.
pub open spec fn settlement_transfers(e: Escrow, actual_duration: u64) -> Seq<Transfer> {
    payout_if_positive(e.payee, payee_share(e, actual_duration))
        + payout_if_positive(e.payer, payer_refund(e, actual_duration))
}

/// The amount a transfer moves out of the vault (negative for a deposit into it).
pub open spec fn outflow(t: Transfer) -> int {
    match t {
        Transfer::Deposit { amount, .. } => -amount,
        Transfer::Payout { amount, .. } => amount as int,
    }
}

/// The net amount a sequence of transfers moves out of the vault.
pub open spec fn total_outflow(ts: Seq<Transfer>) -> int
    decreases ts.len(),
{
    if ts.len() == 0 {
        0
    } else {
        total_outflow(ts.drop_last()) + outflow(ts.last())
    }
}

proof fn lemma_share_bounds(e: Escrow, actual_duration: u64)
    requires
        e.wf(),
    ensures
        0 <= payee_share(e, actual_duration) <= e.deposit,
{
    let rate = e.rate as int;
    let eff = effective_duration(e, actual_duration) as int;
    let booked = e.booked_duration as int;
    assert(0 <= rate * eff <= rate * booked) by (nonlinear_arith)
        requires
            0 <= rate,
            0 <= eff <= booked,
    ;
}

proof fn lemma_total_outflow_single(t: Transfer)
    ensures
        total_outflow(seq![t]) == outflow(t),
{
    assert(seq![t].drop_last() =~= Seq::<Transfer>::empty());
    assert(total_outflow(Seq::<Transfer>::empty()) == 0);
    assert(seq![t].last() == t);
}

proof fn lemma_total_outflow_append(a: Seq<Transfer>, b: Seq<Transfer>)
    ensures
        total_outflow(a + b) == total_outflow(a) + total_outflow(b),
    decreases b.len(),
{
    if b.len() == 0 {
        assert(a + b =~= a);
    } else {
        assert((a + b).drop_last() =~= a + b.drop_last());
        lemma_total_outflow_append(a, b.drop_last());
    }
}

proof fn lemma_payout_outflow(to: Principal, amount: int)
    requires
        0 <= amount <= i128::MAX,
    ensures
        total_outflow(payout_if_positive(to, amount)) == amount,
{
    if amount > 0 {
        lemma_total_outflow_single(Transfer::Payout { to, amount: amount as i128 });
    }
}

/// Settlement conserves value: for a duration within the booking, the payee
/// gets `rate * d`, the payer gets `deposit - rate * d`, neither is negative,
/// and together they are exactly the deposit. Whatever duration is reported,
/// the payouts of a settlement add up to exactly the deposit.
pub proof fn lemma_settlement_conserves_deposit(e: Escrow, actual_duration: u64)
    requires
        e.wf(),
    ensures
        actual_duration <= e.booked_duration ==> payee_share(e, actual_duration) == e.rate
            * actual_duration,
        actual_duration <= e.booked_duration ==> payer_refund(e, actual_duration) == e.deposit
            - e.rate * actual_duration,
        payee_share(e, actual_duration) >= 0,
        payer_refund(e, actual_duration) >= 0,
        payee_share(e, actual_duration) + payer_refund(e, actual_duration) == e.deposit,
        total_outflow(settlement_transfers(e, actual_duration)) == e.deposit,
{
    lemma_share_bounds(e, actual_duration);
    let pay = payee_share(e, actual_duration);
    let refund = payer_refund(e, actual_duration);
    lemma_payout_outflow(e.payee, pay);
    lemma_payout_outflow(e.payer, refund);
    lemma_total_outflow_append(payout_if_positive(e.payee, pay), payout_if_positive(e.payer, refund));
}

/// The deposit for `rate` and `booked_duration`, or `None` where it does not fit an `i128`.
pub fn compute_deposit(rate: i128, booked_duration: u64) -> (r: Option<i128>)
    ensures
        r is Some <==> i128::MIN <= deposit_for(rate, booked_duration) <= i128::MAX,
        r is Some ==> r->Some_0 == deposit_for(rate, booked_duration),
{
    rate.checked_mul(booked_duration as i128)
}

/// The payee's share and the payer's refund of a settlement.
pub fn settle_amounts(e: &Escrow, actual_duration: u64) -> (r: (i128, i128))
    requires
        e.wf(),
    ensures
        r.0 == payee_share(*e, actual_duration),
        r.1 == payer_refund(*e, actual_duration),
{
    let effective = if actual_duration <= e.booked_duration {
        actual_duration
    } else {
        e.booked_duration
    };
    proof {
        lemma_share_bounds(*e, actual_duration);
    }
    let pay = e.rate * (effective as i128);
    let refund = e.deposit - pay;
    (pay, refund)
}

/// The payouts that settle booking `e` with `actual_duration`.
pub fn settlement_payouts(e: &Escrow, actual_duration: u64) -> (r: Vec<Transfer>)
    requires
        e.wf(),
    ensures
        r@ == settlement_transfers(*e, actual_duration),
{
    let (pay, refund) = settle_amounts(e, actual_duration);
    let mut out: Vec<Transfer> = Vec::new();
    if pay > 0 {
        out.push(Transfer::Payout { to: e.payee, amount: pay });
    }
    if refund > 0 {
        out.push(Transfer::Payout { to: e.payer, amount: refund });
    }
    proof {
        assert(out@ =~= settlement_transfers(*e, actual_duration));
    }
    out
}

} // verus!
