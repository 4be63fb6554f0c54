//! Live tipping ledger: records tips against a Live event, keeps the
//! running total and the current highest tipper.
//!
//! The tip amount itself is moved into the event's custodial balance by the
//! runtime; `tip_creator` is handed the tipper's available balance and the
//! current time, and decides.

use vstd::prelude::*;

use crate::event_factory::Event;
use crate::event_factory::EventStatus;
use crate::ids::AccountId;

verus! {

/// One tip record, one per (event, tipper) pair; the runtime derives its
/// key from those two fields, so a second tip by the same tipper for the
/// same event cannot create a second record.
#[derive(Clone, Copy, PartialEq, Eq, Structural, Debug)]
pub struct Tip {
    pub event_id: u64,
    pub tipper: AccountId,
    pub amount: u64,
    pub timestamp: i64,
}

#[derive(Clone, Copy, PartialEq, Eq, Structural, Debug)]
pub enum LiveTippingError {
    EventNotLive,
    InsufficientPayment,
    CalculationError,
}

/// Whether the event takes a tip of `amount` backed by `payment`: the event
/// is Live, the balance covers the amount, and the running total does not
/// overflow.
pub open spec fn tip_accepted_by(e: Event, amount: u64, payment: u64) -> bool {
    &&& e.status is Live
    &&& payment >= amount
    &&& e.total_tips as int + amount as int <= u64::MAX as int
}

/// The event after an accepted tip: the running total grows by exactly the
/// amount, and only a strictly greater tip takes over the highest-tipper
/// slot, so on ties the earlier tipper stays.
pub open spec fn tip_applied(e: Event, tipper: AccountId, amount: u64) -> Event {
    Event {
        total_tips: (e.total_tips + amount) as u64,
        highest_tipper: if amount > e.highest_tip_amount {
            tipper
        } else {
            e.highest_tipper
        },
        highest_tip_amount: if amount > e.highest_tip_amount {
            amount
        } else {
            e.highest_tip_amount
        },
        ..e
    }
}

/// What one tip attempt does: the guards in the order they are checked, and
/// the updated event beside the new record on success.
pub open spec fn tip_model(
    e: Event,
    event_id: u64,
    tipper: AccountId,
    amount: u64,
    payment: u64,
    now: i64,
) -> Result<(Event, Tip), LiveTippingError> {
    if !(e.status is Live) {
        Err(LiveTippingError::EventNotLive)
    } else if payment < amount {
        Err(LiveTippingError::InsufficientPayment)
    } else if e.total_tips as int + amount as int > u64::MAX as int {
        Err(LiveTippingError::CalculationError)
    } else {
        Ok((tip_applied(e, tipper, amount), Tip { event_id, tipper, amount, timestamp: now }))
    }
}

/// Records a tip of `amount` by `tipper` against a Live event. `payment` is
/// the tipper's available balance and `now` the current time. On success
/// the returned record is what the runtime persists under the
/// (event, tipper) key, after moving the amount into the event's custody.
pub fn tip_creator(
    event: &mut Event,
    event_id: u64,
    tipper: AccountId,
    amount: u64,
    payment: u64,
    now: i64,
) -> (r: Result<Tip, LiveTippingError>)
    requires
        old(event).id == event_id,
    ensures
        match tip_model(*old(event), event_id, tipper, amount, payment, now) {
            Ok((e2, t)) => {
                &&& r == Ok::<Tip, LiveTippingError>(t)
                &&& *final(event) == e2
            },
            Err(err) => {
                &&& r == Err::<Tip, LiveTippingError>(err)
                &&& *final(event) == *old(event)
            },
        },
        r is Err ==> *final(event) == *old(event),
        r is Ok ==> final(event).total_tips == old(event).total_tips + amount,
{
    if event.status != EventStatus::Live {
        return Err(LiveTippingError::EventNotLive);
    }
    if payment < amount {
        return Err(LiveTippingError::InsufficientPayment);
    }
    let total = match event.total_tips.checked_add(amount) {
        Some(total) => total,
        None => {
            return Err(LiveTippingError::CalculationError);
        },
    };
    event.total_tips = total;
    if amount > event.highest_tip_amount {
        event.highest_tipper = tipper;
        event.highest_tip_amount = amount;
    }
    Ok(Tip { event_id, tipper, amount, timestamp: now })
}

/// One tip attempt, as the accounting law ranges over sequences of them.
#[derive(Clone, Copy, PartialEq, Eq, Structural, Debug)]
pub struct TipAttempt {
    pub tipper: AccountId,
    pub amount: u64,
    pub payment: u64,
    pub now: i64,
}

/// Whether the event takes this attempt.
pub open spec fn attempt_accepted(e: Event, a: TipAttempt) -> bool {
    tip_accepted_by(e, a.amount, a.payment)
}

/// The event after a sequence of tip attempts, a rejected attempt changing
/// nothing.
pub open spec fn run_tips(e: Event, s: Seq<TipAttempt>) -> Event
    decreases s.len(),
{
    if s.len() == 0 {
        e
    } else {
        let prior = run_tips(e, s.drop_last());
        if attempt_accepted(prior, s.last()) {
            tip_applied(prior, s.last().tipper, s.last().amount)
        } else {
            prior
        }
    }
}

/// Whether the i-th attempt of the sequence is accepted in the run.
pub open spec fn accepted_at(e: Event, s: Seq<TipAttempt>, i: int) -> bool {
    attempt_accepted(run_tips(e, s.take(i)), s[i])
}

/// The sum of the amounts of the accepted attempts.
pub open spec fn accepted_sum(e: Event, s: Seq<TipAttempt>) -> int
    decreases s.len(),
{
    if s.len() == 0 {
        0int
    } else {
        accepted_sum(e, s.drop_last()) + if attempt_accepted(
            run_tips(e, s.drop_last()),
            s.last(),
        ) {
            s.last().amount as int
        } else {
            0int
        }
    }
}

/// The i-th attempt put the final value into the highest-tipper slot: it
/// was accepted, it carries the final amount and tipper, and every accepted
/// attempt before it was strictly smaller.
pub open spec fn champion_at(e: Event, s: Seq<TipAttempt>, i: int) -> bool {
    &&& 0 <= i < s.len()
    &&& accepted_at(e, s, i)
    &&& s[i].amount == run_tips(e, s).highest_tip_amount
    &&& s[i].tipper == run_tips(e, s).highest_tipper
    &&& forall|j: int|
        0 <= j < i && #[trigger] accepted_at(e, s, j) ==> s[j].amount < run_tips(
            e,
            s,
        ).highest_tip_amount
}

/// Dropping the last attempt does not change whether an earlier one is
/// accepted.
proof fn lemma_accepted_at_prefix(e: Event, s: Seq<TipAttempt>, i: int)
    requires
        s.len() > 0,
        0 <= i < s.len() - 1,
    ensures
        accepted_at(e, s, i) == accepted_at(e, s.drop_last(), i),
{
    assert(s.drop_last().take(i) =~= s.take(i));
}

/// Law: tip accounting is exact. Over any sequence of tip attempts, the
/// running total grows by exactly the sum of the accepted amounts and by
/// nothing else (in particular nothing is accepted while the event is not
/// Live); the highest-tip slot holds the maximum of the start value and
/// every accepted amount; and when the slot moved at all, it names the
/// first tipper to reach that maximum, ties never displacing the earlier
/// one. Tipping touches no other field of the event.
pub proof fn lemma_tip_accounting(e: Event, s: Seq<TipAttempt>)
    ensures
        run_tips(e, s) == (Event {
            total_tips: run_tips(e, s).total_tips,
            highest_tipper: run_tips(e, s).highest_tipper,
            highest_tip_amount: run_tips(e, s).highest_tip_amount,
            ..e
        }),
        accepted_sum(e, s) >= 0,
        run_tips(e, s).total_tips as int == e.total_tips as int + accepted_sum(e, s),
        run_tips(e, s).highest_tip_amount >= e.highest_tip_amount,
        forall|i: int|
            0 <= i < s.len() && #[trigger] accepted_at(e, s, i) ==> s[i].amount <= run_tips(
                e,
                s,
            ).highest_tip_amount,
        run_tips(e, s).highest_tip_amount > e.highest_tip_amount ==> exists|i: int|
            champion_at(e, s, i),
        run_tips(e, s).highest_tip_amount == e.highest_tip_amount ==> run_tips(e, s).highest_tipper
            == e.highest_tipper,
    decreases s.len(),
{
    if s.len() > 0 {
        let s0 = s.drop_last();
        let a = s.last();
        lemma_tip_accounting(e, s0);
        let prior = run_tips(e, s0);
        let r = run_tips(e, s);
        assert(s.take(s.len() - 1) =~= s0);
        assert(accepted_at(e, s, s.len() - 1) == attempt_accepted(prior, a));
        assert forall|i: int| 0 <= i < s.len() - 1 implies accepted_at(e, s, i) == accepted_at(
            e,
            s0,
            i,
        ) by {
            lemma_accepted_at_prefix(e, s, i);
        }
        if attempt_accepted(prior, a) {
            if a.amount > prior.highest_tip_amount {
                let w = s.len() - 1;
                assert(champion_at(e, s, w)) by {
                    assert forall|j: int| 0 <= j < w && #[trigger] accepted_at(e, s, j)
                        implies s[j].amount < r.highest_tip_amount by {
                        assert(accepted_at(e, s0, j));
                        assert(s[j].amount <= prior.highest_tip_amount);
                    }
                }
            } else {
                if r.highest_tip_amount > e.highest_tip_amount {
                    let i = choose|i: int| champion_at(e, s0, i);
                    assert(champion_at(e, s, i)) by {
                        assert(accepted_at(e, s, i));
                        assert forall|j: int| 0 <= j < i && #[trigger] accepted_at(e, s, j)
                            implies s[j].amount < r.highest_tip_amount by {
                            assert(accepted_at(e, s0, j));
                        }
                    }
                }
            }
        } else {
            if r.highest_tip_amount > e.highest_tip_amount {
                let i = choose|i: int| champion_at(e, s0, i);
                assert(champion_at(e, s, i)) by {
                    assert(accepted_at(e, s, i));
                    assert forall|j: int| 0 <= j < i && #[trigger] accepted_at(e, s, j)
                        implies s[j].amount < r.highest_tip_amount by {
                        assert(accepted_at(e, s0, j));
                    }
                }
            }
        }
    }
}

} // verus!
