//! Ticket sales ledger: per-event ticket inventory and per-ticket ownership
//! records, with the buy and verify operations.
//!
//! Payment custody is the runtime's: `buy_ticket` is handed the buyer's
//! available balance and decides; on success the runtime moves the unit
//! price into the event's custodial balance and has the issuer mint the
//! per-ticket collectible named in the returned record.

use vstd::prelude::*;

use crate::event_factory::Event;
use crate::event_factory::EventStatus;
use crate::ids::AccountId;

verus! {

/// Ticket inventory record, one per event, created as part of event
/// creation. `ticket_count` is the source of sequential ticket ids; it
/// equals `tickets_sold` at all times, since no ticket is ever revoked.
#[derive(Clone, Copy, PartialEq, Eq, Structural, Debug)]
pub struct TicketFactory {
    pub event_id: u64,
    pub authority: AccountId,
    pub tickets_amount: u64,
    pub ticket_price: u64,
    pub tickets_sold: u64,
    pub ticket_count: u64,
}

impl TicketFactory {
    /// Record invariant: ids have no gaps, and a finite inventory is never
    /// oversold (`tickets_amount == 0` means unlimited).
    pub open spec fn wf(self) -> bool {
        &&& self.ticket_count == self.tickets_sold
        &&& self.tickets_amount > 0 ==> self.tickets_sold <= self.tickets_amount
    }
}

/// One ticket, owned by its buyer, with the accounts of its collectible.
#[derive(Clone, Copy, PartialEq, Eq, Structural, Debug)]
pub struct Ticket {
    pub id: u64,
    pub event_id: u64,
    pub owner: AccountId,
    pub mint: AccountId,
    pub metadata: AccountId,
    pub master_edition: AccountId,
}

#[derive(Clone, Copy, PartialEq, Eq, Structural, Debug)]
pub enum TicketFactoryError {
    SoldOut,
    EventAlreadyStarted,
    InsufficientPayment,
    InvalidTicket,
    NotTicketOwner,
    EventNotLive,
}

/// Creates the inventory record for a new event. Called by the event
/// lifecycle manager during event creation, never directly in the
/// intended flow.
pub fn initialize(
    event_id: u64,
    authority: AccountId,
    tickets_amount: u64,
    ticket_price: u64,
) -> (r: TicketFactory)
    ensures
        r == (TicketFactory {
            event_id,
            authority,
            tickets_amount,
            ticket_price,
            tickets_sold: 0,
            ticket_count: 0,
        }),
        r.wf(),
{
    TicketFactory { event_id, authority, tickets_amount, ticket_price, tickets_sold: 0, ticket_count: 0 }
}

/// What one purchase attempt does: the guards in the order they are
/// checked, and the updated records with the new ticket on success.
pub open spec fn buy_model(
    inv: TicketFactory,
    e: Event,
    buyer: AccountId,
    payment: u64,
    now: i64,
    mint: AccountId,
    metadata: AccountId,
    master_edition: AccountId,
) -> Result<(TicketFactory, Event, Ticket), TicketFactoryError> {
    if now >= e.start_time {
        Err(TicketFactoryError::EventAlreadyStarted)
    } else if !(inv.tickets_amount == 0 || inv.tickets_sold < inv.tickets_amount) {
        Err(TicketFactoryError::SoldOut)
    } else if payment < inv.ticket_price {
        Err(TicketFactoryError::InsufficientPayment)
    } else {
        Ok((
            TicketFactory {
                tickets_sold: (inv.tickets_sold + 1) as u64,
                ticket_count: (inv.ticket_count + 1) as u64,
                ..inv
            },
            Event { tickets_sold: (e.tickets_sold + 1) as u64, ..e },
            Ticket { id: inv.ticket_count, event_id: inv.event_id, owner: buyer, mint, metadata, master_edition },
        ))
    }
}

/// Sells one ticket. `payment` is the buyer's available balance; `now` is
/// the current time. Fails with `EventAlreadyStarted` from the start time
/// on, whatever the remaining inventory; with `SoldOut` when a finite
/// inventory is exhausted; and with `InsufficientPayment` when the balance
/// does not cover the unit price. On success both sold counters move by
/// one together, and the ticket carries the next sequential id.
pub fn buy_ticket(
    inventory: &mut TicketFactory,
    event: &mut Event,
    event_id: u64,
    buyer: AccountId,
    payment: u64,
    now: i64,
    mint: AccountId,
    metadata: AccountId,
    master_edition: AccountId,
) -> (r: Result<Ticket, TicketFactoryError>)
    requires
        old(inventory).event_id == event_id,
        old(event).id == event_id,
        old(inventory).tickets_sold == old(event).tickets_sold,
        old(inventory).wf(),
        old(inventory).ticket_count < u64::MAX,
    ensures
        match buy_model(*old(inventory), *old(event), buyer, payment, now, mint, metadata, master_edition) {
            Ok((inv2, e2, t)) => {
                &&& r == Ok::<Ticket, TicketFactoryError>(t)
                &&& *final(inventory) == inv2
                &&& *final(event) == e2
            },
            Err(err) => {
                &&& r == Err::<Ticket, TicketFactoryError>(err)
                &&& *final(inventory) == *old(inventory)
                &&& *final(event) == *old(event)
            },
        },
        final(inventory).wf(),
        final(inventory).tickets_sold == final(event).tickets_sold,
        r is Err ==> *final(event) == *old(event) && *final(inventory) == *old(inventory),
{
    if now >= event.start_time {
        return Err(TicketFactoryError::EventAlreadyStarted);
    }
    if !(inventory.tickets_amount == 0 || inventory.tickets_sold < inventory.tickets_amount) {
        return Err(TicketFactoryError::SoldOut);
    }
    if payment < inventory.ticket_price {
        return Err(TicketFactoryError::InsufficientPayment);
    }
    let ticket_id = inventory.ticket_count;
    inventory.ticket_count = inventory.ticket_count + 1;
    inventory.tickets_sold = inventory.tickets_sold + 1;
    event.tickets_sold = event.tickets_sold + 1;
    Ok(Ticket { id: ticket_id, event_id, owner: buyer, mint, metadata, master_edition })
}

/// What `verify_ticket` answers for each input.
pub open spec fn verify_model(
    t: Ticket,
    e: Event,
    event_id: u64,
    ticket_id: u64,
    owner: AccountId,
) -> Result<(), TicketFactoryError> {
    if t.event_id != event_id || t.id != ticket_id {
        Err(TicketFactoryError::InvalidTicket)
    } else if t.owner != owner {
        Err(TicketFactoryError::NotTicketOwner)
    } else if !(e.status is Live) {
        Err(TicketFactoryError::EventNotLive)
    } else {
        Ok(())
    }
}

/// Read-only admission check: the ticket is the one derived from
/// (event, ticket id), it belongs to the caller, and the event is Live.
pub fn verify_ticket(
    ticket: &Ticket,
    event: &Event,
    event_id: u64,
    ticket_id: u64,
    owner: AccountId,
) -> (r: Result<(), TicketFactoryError>)
    requires
        event.id == event_id,
    ensures
        r == verify_model(*ticket, *event, event_id, ticket_id, owner),
        r is Ok <==> ticket.event_id == event_id && ticket.id == ticket_id
            && ticket.owner == owner && event.status is Live,
{
    if ticket.event_id != event_id || ticket.id != ticket_id {
        return Err(TicketFactoryError::InvalidTicket);
    }
    if ticket.owner != owner {
        return Err(TicketFactoryError::NotTicketOwner);
    }
    if event.status != EventStatus::Live {
        return Err(TicketFactoryError::EventNotLive);
    }
    Ok(())
}

/// One purchase attempt, as the laws over sequences of purchases range
/// over them.
#[derive(Clone, Copy, PartialEq, Eq, Structural, Debug)]
pub struct PurchaseAttempt {
    pub buyer: AccountId,
    pub payment: u64,
    pub now: i64,
    pub mint: AccountId,
    pub metadata: AccountId,
    pub master_edition: AccountId,
}

/// `buy_model` over a bundled attempt.
pub open spec fn attempt_model(inv: TicketFactory, e: Event, a: PurchaseAttempt) -> Result<
    (TicketFactory, Event, Ticket),
    TicketFactoryError,
> {
    buy_model(inv, e, a.buyer, a.payment, a.now, a.mint, a.metadata, a.master_edition)
}

/// The two records after a sequence of purchase attempts, a failed attempt
/// changing nothing.
pub open spec fn run_purchases(inv: TicketFactory, e: Event, s: Seq<PurchaseAttempt>) -> (
    TicketFactory,
    Event,
)
    decreases s.len(),
{
    if s.len() == 0 {
        (inv, e)
    } else {
        let prior = run_purchases(inv, e, s.drop_last());
        match attempt_model(prior.0, prior.1, s.last()) {
            Ok(updated) => (updated.0, updated.1),
            Err(_) => prior,
        }
    }
}

/// How many attempts of the sequence succeed.
pub open spec fn purchases_accepted(inv: TicketFactory, e: Event, s: Seq<PurchaseAttempt>) -> int
    decreases s.len(),
{
    if s.len() == 0 {
        0int
    } else {
        let prior = run_purchases(inv, e, s.drop_last());
        purchases_accepted(inv, e, s.drop_last()) + if attempt_model(prior.0, prior.1, s.last()) is Ok {
            1int
        } else {
            0int
        }
    }
}

/// Law: a finite inventory is never oversold. Over any sequence of
/// purchase attempts on an event with `tickets_amount` N > 0, each success
/// moves both sold counters by one together, at most N - tickets_sold more
/// attempts succeed, and the sold counter never passes N. Purchases touch
/// nothing else on the event record.
pub proof fn lemma_finite_inventory_never_oversold(
    inv: TicketFactory,
    e: Event,
    s: Seq<PurchaseAttempt>,
)
    requires
        inv.wf(),
        inv.tickets_sold == e.tickets_sold,
        inv.tickets_amount > 0,
    ensures
        run_purchases(inv, e, s).0.wf(),
        run_purchases(inv, e, s).0 == (TicketFactory {
            tickets_sold: run_purchases(inv, e, s).0.tickets_sold,
            ticket_count: run_purchases(inv, e, s).0.ticket_count,
            ..inv
        }),
        run_purchases(inv, e, s).1 == (Event {
            tickets_sold: run_purchases(inv, e, s).0.tickets_sold,
            ..e
        }),
        purchases_accepted(inv, e, s) >= 0,
        run_purchases(inv, e, s).0.tickets_sold as int == inv.tickets_sold as int
            + purchases_accepted(inv, e, s),
        purchases_accepted(inv, e, s) <= inv.tickets_amount as int - inv.tickets_sold as int,
        run_purchases(inv, e, s).0.tickets_sold <= inv.tickets_amount,
    decreases s.len(),
{
    if s.len() > 0 {
        lemma_finite_inventory_never_oversold(inv, e, s.drop_last());
    }
}

/// Law: once a finite inventory is sold out, every purchase attempt before
/// the start time fails with SoldOut, whatever the buyer and the payment.
/// (From the start time on, EventAlreadyStarted prevails over the
/// inventory.)
pub proof fn lemma_sold_out_attempts_fail(inv: TicketFactory, e: Event, a: PurchaseAttempt)
    requires
        inv.tickets_amount > 0,
        inv.tickets_sold >= inv.tickets_amount,
        a.now < e.start_time,
    ensures
        attempt_model(inv, e, a) == Err::<(TicketFactory, Event, Ticket), TicketFactoryError>(
            TicketFactoryError::SoldOut,
        ),
{
}

} // verus!
