//! Event lifecycle manager and factory registry: event records, the status
//! state machine, creation (which provisions the paired ticket inventory),
//! and finalization (fee split and collectible hand-over).
//!
//! Fund custody and collectible issuance are the runtime's: the functions
//! here decide, and return directives (`CollectibleRequest`, `ContentUpdate`,
//! `Payout`) that the runtime performs atomically with the state change.

use vstd::prelude::*;

use crate::ids::AccountId;
use crate::ticket_factory;
use crate::ticket_factory::TicketFactory;

verus! {

/// Declared tipping/pricing mode of an event; recorded, not differentially
/// enforced by the core logic.
#[derive(Clone, Copy, PartialEq, Eq, Structural, Debug)]
pub enum SaleType {
    CumulativeTips,
    BlindAuction,
    QuadraticTipping,
}

/// The event state machine: Created -> Live -> Completed -> Finalized.
#[derive(Clone, Copy, PartialEq, Eq, Structural, Debug)]
pub enum EventStatus {
    Created,
    Live,
    Completed,
    Finalized,
}

#[derive(Clone, Copy, PartialEq, Eq, Structural, Debug)]
pub enum EventFactoryError {
    Unauthorized,
    EventNotStarted,
    EventNotEnded,
    InvalidStatusTransition,
    CannotAddContent,
    EventNotCompleted,
    NoTips,
    CalculationError,
}

/// The singleton factory registry: platform authority, treasury, fee rate
/// in parts per thousand, and the monotonic event-id counter.
#[derive(Clone, Copy, PartialEq, Eq, Structural, Debug)]
pub struct EventFactory {
    pub authority: AccountId,
    pub treasury: AccountId,
    pub treasury_fee: u64,
    pub event_count: u64,
}

/// One event record.
#[derive(Clone, PartialEq, Eq, Debug)]
pub struct Event {
    pub id: u64,
    pub authority: AccountId,
    pub name: String,
    pub description: String,
    pub category: String,
    pub tickets_amount: u64,
    pub ticket_price: u64,
    pub sale_type: SaleType,
    pub reserve_price: u64,
    pub start_time: i64,
    pub duration: u64,
    pub tickets_sold: u64,
    pub total_tips: u64,
    pub highest_tipper: AccountId,
    pub highest_tip_amount: u64,
    pub status: EventStatus,
    pub mint: AccountId,
    pub metadata: AccountId,
    pub master_edition: AccountId,
}

/// Directive to the collectible issuer: create the one-of-one event
/// collectible with this metadata and mint its single unit to `owner`.
#[derive(Clone, PartialEq, Eq, Debug)]
pub struct CollectibleRequest {
    pub owner: AccountId,
    pub name: String,
    pub symbol: String,
    pub uri: String,
}

/// Directive to the collectible issuer: point the metadata record of the
/// event's collectible at a new content URI.
#[derive(Clone, PartialEq, Eq, Debug)]
pub struct ContentUpdate {
    pub metadata: AccountId,
    pub uri: String,
}

/// Directive to the custodial-transfer primitive on finalization: pay the
/// fee to the treasury and the rest to the creator, then hand the event
/// collectible to the highest tipper, if there is one.
#[derive(Clone, PartialEq, Eq, Debug)]
pub struct Payout {
    pub treasury: AccountId,
    pub fee_amount: u64,
    pub creator: AccountId,
    pub artist_amount: u64,
    pub collectible_to: Option<AccountId>,
}

/// Creates the singleton registry with the caller as platform authority
/// and an event counter at zero. That the singleton is created at most
/// once is the account-creation primitive's guarantee, not this one's.
pub fn initialize(authority: AccountId, treasury: AccountId, treasury_fee: u64) -> (r: EventFactory)
    ensures
        r == (EventFactory { authority, treasury, treasury_fee, event_count: 0 }),
{
    EventFactory { authority, treasury, treasury_fee, event_count: 0 }
}

/// Creates a new event under the next id from the registry counter, with
/// the paired ticket inventory, and directs the issuer to mint the event
/// collectible to the creator. The caller persists both records and
/// performs the issuance in the same transaction, or none of it.
pub fn create_event(
    factory: &mut EventFactory,
    creator: AccountId,
    name: String,
    symbol: String,
    uri: String,
    description: String,
    category: String,
    tickets_amount: u64,
    ticket_price: u64,
    sale_type: SaleType,
    reserve_price: u64,
    start_time: i64,
    duration: u64,
    mint: AccountId,
    metadata: AccountId,
    master_edition: AccountId,
) -> (r: (Event, TicketFactory, CollectibleRequest))
    requires
        old(factory).event_count < u64::MAX,
    ensures
        *final(factory) == (EventFactory {
            event_count: (old(factory).event_count + 1) as u64,
            ..*old(factory)
        }),
        r.0.id == old(factory).event_count,
        r.0.authority == creator,
        r.0.name@ == name@,
        r.0.description@ == description@,
        r.0.category@ == category@,
        r.0.tickets_amount == tickets_amount,
        r.0.ticket_price == ticket_price,
        r.0.sale_type == sale_type,
        r.0.reserve_price == reserve_price,
        r.0.start_time == start_time,
        r.0.duration == duration,
        r.0.tickets_sold == 0,
        r.0.total_tips == 0,
        r.0.highest_tipper.is_unset(),
        r.0.highest_tip_amount == 0,
        r.0.status is Created,
        r.0.mint == mint,
        r.0.metadata == metadata,
        r.0.master_edition == master_edition,
        r.1 == (TicketFactory {
            event_id: old(factory).event_count,
            authority: creator,
            tickets_amount,
            ticket_price,
            tickets_sold: 0,
            ticket_count: 0,
        }),
        r.2.owner == creator,
        r.2.name@ == name@,
        r.2.symbol@ == symbol@,
        r.2.uri@ == uri@,
{
    let event_id = factory.event_count;
    factory.event_count = factory.event_count + 1;

    let inventory = ticket_factory::initialize(event_id, creator, tickets_amount, ticket_price);

    let event = Event {
        id: event_id,
        authority: creator,
        name: name.clone(),
        description,
        category,
        tickets_amount,
        ticket_price,
        sale_type,
        reserve_price,
        start_time,
        duration,
        tickets_sold: 0,
        total_tips: 0,
        highest_tipper: AccountId::unset(),
        highest_tip_amount: 0,
        status: EventStatus::Created,
        mint,
        metadata,
        master_edition,
    };

    let request = CollectibleRequest { owner: creator, name, symbol, uri };
    (event, inventory, request)
}

/// What one requested status change does: only the creator may ask, the
/// only transitions are Created -> Live (once the start time is reached)
/// and Live -> Completed (once start time plus duration is reached), and a
/// rejected request leaves the record as it was.
pub open spec fn status_update_model(
    e: Event,
    caller: AccountId,
    to: EventStatus,
    now: i64,
) -> Result<Event, EventFactoryError> {
    if caller != e.authority {
        Err(EventFactoryError::Unauthorized)
    } else {
        match (e.status, to) {
            (EventStatus::Created, EventStatus::Live) => {
                if now >= e.start_time {
                    Ok(Event { status: EventStatus::Live, ..e })
                } else {
                    Err(EventFactoryError::EventNotStarted)
                }
            },
            (EventStatus::Live, EventStatus::Completed) => {
                if now as int >= e.start_time as int + e.duration as int {
                    Ok(Event { status: EventStatus::Completed, ..e })
                } else {
                    Err(EventFactoryError::EventNotEnded)
                }
            },
            _ => Err(EventFactoryError::InvalidStatusTransition),
        }
    }
}

/// Requests a status change on behalf of `caller` at time `now`.
pub fn update_event_status(
    event: &mut Event,
    caller: AccountId,
    status: EventStatus,
    now: i64,
) -> (r: Result<(), EventFactoryError>)
    ensures
        match status_update_model(*old(event), caller, status, now) {
            Ok(e2) => r is Ok && *final(event) == e2,
            Err(err) => r == Err::<(), EventFactoryError>(err) && *final(event) == *old(event),
        },
        r is Err ==> *final(event) == *old(event),
{
    if caller != event.authority {
        return Err(EventFactoryError::Unauthorized);
    }
    match (event.status, status) {
        (EventStatus::Created, EventStatus::Live) => {
            if now >= event.start_time {
                event.status = EventStatus::Live;
                Ok(())
            } else {
                Err(EventFactoryError::EventNotStarted)
            }
        },
        (EventStatus::Live, EventStatus::Completed) => {
            if now as i128 >= event.start_time as i128 + event.duration as i128 {
                event.status = EventStatus::Completed;
                Ok(())
            } else {
                Err(EventFactoryError::EventNotEnded)
            }
        },
        _ => Err(EventFactoryError::InvalidStatusTransition),
    }
}

/// Attaches new descriptive content to a Live or Completed event: returns
/// the metadata update for the runtime to perform. Touches no status and no
/// financial field; the event record itself is read only.
pub fn add_content_to_event(
    event: &Event,
    caller: AccountId,
    content_uri: String,
) -> (r: Result<ContentUpdate, EventFactoryError>)
    ensures
        caller != event.authority ==> r == Err::<ContentUpdate, EventFactoryError>(
            EventFactoryError::Unauthorized,
        ),
        caller == event.authority && !(event.status is Live || event.status is Completed)
            ==> r == Err::<ContentUpdate, EventFactoryError>(EventFactoryError::CannotAddContent),
        caller == event.authority && (event.status is Live || event.status is Completed) ==> {
            &&& r is Ok
            &&& r->Ok_0.metadata == event.metadata
            &&& r->Ok_0.uri@ == content_uri@
        },
{
    if caller != event.authority {
        return Err(EventFactoryError::Unauthorized);
    }
    if !(event.status == EventStatus::Live || event.status == EventStatus::Completed) {
        return Err(EventFactoryError::CannotAddContent);
    }
    Ok(ContentUpdate { metadata: event.metadata, uri: content_uri })
}

/// The treasury's share of `total`: floor(total * rate / 1000), the rate
/// being in parts per thousand.
pub open spec fn fee_of(total: u64, rate: u64) -> int {
    (total as int * rate as int) / 1000
}

/// What finalization does: the guards in the order they are checked, and on
/// success the Finalized record beside the exact payout.
pub open spec fn finalize_model(
    f: EventFactory,
    e: Event,
    caller: AccountId,
) -> Result<(Event, Payout), EventFactoryError> {
    if caller != e.authority {
        Err(EventFactoryError::Unauthorized)
    } else if !(e.status is Completed) {
        Err(EventFactoryError::EventNotCompleted)
    } else if e.total_tips == 0 {
        Err(EventFactoryError::NoTips)
    } else if e.total_tips as int * f.treasury_fee as int > u64::MAX as int {
        Err(EventFactoryError::CalculationError)
    } else if fee_of(e.total_tips, f.treasury_fee) > e.total_tips as int {
        Err(EventFactoryError::CalculationError)
    } else {
        let fee = fee_of(e.total_tips, f.treasury_fee) as u64;
        Ok((
            Event { status: EventStatus::Finalized, ..e },
            Payout {
                treasury: f.treasury,
                fee_amount: fee,
                creator: e.authority,
                artist_amount: (e.total_tips - fee) as u64,
                collectible_to: if e.highest_tipper.is_unset() {
                    None
                } else {
                    Some(e.highest_tipper)
                },
            },
        ))
    }
}

/// Finalizes a Completed event with tips: splits the collected tips between
/// treasury and creator with no rounding loss, marks the event Finalized
/// (terminal), and names the highest tipper as collectible recipient when
/// one was recorded. The runtime performs the payout and the record update
/// in one transaction, or neither.
pub fn finalize_event(
    factory: &EventFactory,
    event: &mut Event,
    caller: AccountId,
) -> (r: Result<Payout, EventFactoryError>)
    ensures
        match finalize_model(*factory, *old(event), caller) {
            Ok((e2, p)) => {
                &&& r == Ok::<Payout, EventFactoryError>(p)
                &&& *final(event) == e2
            },
            Err(err) => {
                &&& r == Err::<Payout, EventFactoryError>(err)
                &&& *final(event) == *old(event)
            },
        },
        r is Ok ==> final(event).status is Finalized,
        r matches Ok(p) ==> p.fee_amount + p.artist_amount == old(event).total_tips,
        r is Err ==> *final(event) == *old(event),
{
    if caller != event.authority {
        return Err(EventFactoryError::Unauthorized);
    }
    if event.status != EventStatus::Completed {
        return Err(EventFactoryError::EventNotCompleted);
    }
    if event.total_tips == 0 {
        return Err(EventFactoryError::NoTips);
    }
    let fee_amount = match event.total_tips.checked_mul(factory.treasury_fee) {
        Some(product) => product / 1000,
        None => {
            return Err(EventFactoryError::CalculationError);
        },
    };
    let artist_amount = match event.total_tips.checked_sub(fee_amount) {
        Some(rest) => rest,
        None => {
            return Err(EventFactoryError::CalculationError);
        },
    };
    let collectible_to = if event.highest_tipper == AccountId::unset() {
        None
    } else {
        Some(event.highest_tipper)
    };
    event.status = EventStatus::Finalized;
    Ok(Payout {
        treasury: factory.treasury,
        fee_amount,
        creator: event.authority,
        artist_amount,
        collectible_to,
    })
}

/// Position of a status along the one-way lifecycle.
pub open spec fn status_rank(s: EventStatus) -> int {
    match s {
        EventStatus::Created => 0,
        EventStatus::Live => 1,
        EventStatus::Completed => 2,
        EventStatus::Finalized => 3,
    }
}

/// Law: status moves only along Created -> Live -> Completed -> Finalized,
/// one step at a time. A granted status request advances the rank by
/// exactly one and touches nothing else; any request by another identity
/// is answered Unauthorized, and any requested pair other than the two
/// lifecycle edges — self-transitions, skipped states, anything out of
/// Completed or Finalized — is answered InvalidStatusTransition, the
/// operations' contracts leaving a rejected record entirely unchanged.
/// Finalization is the only way to Finalized and starts from Completed.
pub proof fn lemma_status_transitions(
    f: EventFactory,
    e: Event,
    caller: AccountId,
    to: EventStatus,
    now: i64,
)
    ensures
        status_update_model(e, caller, to, now) matches Ok(e2) ==> {
            &&& (e.status is Created && e2.status is Live) || (e.status is Live
                && e2.status is Completed)
            &&& status_rank(e2.status) == status_rank(e.status) + 1
            &&& e2 == (Event { status: e2.status, ..e })
        },
        caller != e.authority ==> status_update_model(e, caller, to, now) == Err::<
            Event,
            EventFactoryError,
        >(EventFactoryError::Unauthorized),
        caller == e.authority && !((e.status is Created && to is Live) || (e.status is Live
            && to is Completed)) ==> status_update_model(e, caller, to, now) == Err::<
            Event,
            EventFactoryError,
        >(EventFactoryError::InvalidStatusTransition),
        finalize_model(f, e, caller) matches Ok(pair) ==> {
            &&& e.status is Completed
            &&& pair.0.status is Finalized
            &&& status_rank(pair.0.status) == status_rank(e.status) + 1
        },
        e.status is Finalized ==> status_update_model(e, caller, to, now) is Err,
        e.status is Finalized ==> finalize_model(f, e, caller) is Err,
{
}

/// Law: finalization is terminal. After a successful finalization no second
/// one goes through, whoever asks and whatever the registry says: the
/// status is already Finalized, no longer Completed. In particular the
/// authority itself is answered EventNotCompleted.
pub proof fn lemma_finalize_not_idempotent(f: EventFactory, e: Event, caller: AccountId)
    requires
        finalize_model(f, e, caller) is Ok,
    ensures
        forall|f2: EventFactory, caller2: AccountId|
            finalize_model(f2, #[trigger] finalize_model(f, e, caller)->Ok_0.0, caller2) is Err,
        finalize_model(f, finalize_model(f, e, caller)->Ok_0.0, caller) == Err::<
            (Event, Payout),
            EventFactoryError,
        >(EventFactoryError::EventNotCompleted),
{
}

/// Law: the fee split is exact. Whenever finalization pays out, the fee is
/// floor(total_tips * rate / 1000) and fee plus artist amount equal the
/// collected tips to the unit; and for a rate of at most 1000 parts per
/// thousand that does not overflow the multiplication, the split is owed
/// whenever the other guards pass.
pub proof fn lemma_fee_split_exact(f: EventFactory, e: Event, caller: AccountId)
    ensures
        finalize_model(f, e, caller) matches Ok(pair) ==> {
            &&& pair.1.fee_amount as int == fee_of(e.total_tips, f.treasury_fee)
            &&& pair.1.fee_amount as int + pair.1.artist_amount as int == e.total_tips as int
        },
        caller == e.authority && e.status is Completed && e.total_tips > 0 && f.treasury_fee
            <= 1000 && e.total_tips as int * f.treasury_fee as int <= u64::MAX as int
            ==> finalize_model(f, e, caller) is Ok,
{
    if f.treasury_fee <= 1000 {
        vstd::arithmetic::mul::lemma_mul_inequality(
            f.treasury_fee as int,
            1000,
            e.total_tips as int,
        );
        vstd::arithmetic::div_mod::lemma_div_is_ordered(
            f.treasury_fee as int * e.total_tips as int,
            1000 * e.total_tips as int,
            1000,
        );
        vstd::arithmetic::div_mod::lemma_div_multiples_vanish(e.total_tips as int, 1000);
        assert(f.treasury_fee as int * e.total_tips as int == e.total_tips as int
            * f.treasury_fee as int) by (nonlinear_arith);
        assert(1000 * e.total_tips as int == e.total_tips as int * 1000) by (nonlinear_arith);
        assert(fee_of(e.total_tips, f.treasury_fee) <= e.total_tips as int);
    }
}

} // verus!
