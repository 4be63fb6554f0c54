//! Event lifecycle: registry, creation, status machine, finalization.

use haus::event_factory::{
    add_content_to_event, create_event, finalize_event, initialize, update_event_status, Event,
    EventFactory, EventFactoryError, EventStatus, SaleType,
};
use haus::ids::AccountId;
use haus::live_tipping::tip_creator;

fn acct(key: u64) -> AccountId {
    AccountId { key }
}

fn fresh_registry(fee: u64) -> EventFactory {
    initialize(acct(1), acct(2), fee)
}

fn plain_event(id: u64, authority: AccountId, status: EventStatus) -> Event {
    Event {
        id,
        authority,
        name: String::from("Show"),
        description: String::from("An evening show"),
        category: String::from("music"),
        tickets_amount: 0,
        ticket_price: 1000,
        sale_type: SaleType::CumulativeTips,
        reserve_price: 0,
        start_time: 100,
        duration: 50,
        tickets_sold: 0,
        total_tips: 0,
        highest_tipper: AccountId { key: 0 },
        highest_tip_amount: 0,
        status,
        mint: acct(21),
        metadata: acct(22),
        master_edition: acct(23),
    }
}

#[test]
fn initialize_registry() {
    let registry = initialize(acct(1), acct(2), 100);
    assert_eq!(registry.authority, acct(1));
    assert_eq!(registry.treasury, acct(2));
    assert_eq!(registry.treasury_fee, 100);
    assert_eq!(registry.event_count, 0);
}

#[test]
fn create_event_assigns_dense_ids() {
    let mut registry = fresh_registry(100);
    let creator = acct(11);
    let (event, inventory, request) = create_event(
        &mut registry,
        creator,
        String::from("Show"),
        String::from("SHOW"),
        String::from("https://example.org/show.json"),
        String::from("An evening show"),
        String::from("music"),
        250,
        1000,
        SaleType::CumulativeTips,
        0,
        100,
        50,
        acct(21),
        acct(22),
        acct(23),
    );
    assert_eq!(registry.event_count, 1);
    assert_eq!(event.id, 0);
    assert_eq!(event.authority, creator);
    assert_eq!(event.name, "Show");
    assert_eq!(event.description, "An evening show");
    assert_eq!(event.category, "music");
    assert_eq!(event.tickets_amount, 250);
    assert_eq!(event.ticket_price, 1000);
    assert_eq!(event.sale_type, SaleType::CumulativeTips);
    assert_eq!(event.start_time, 100);
    assert_eq!(event.duration, 50);
    assert_eq!(event.tickets_sold, 0);
    assert_eq!(event.total_tips, 0);
    assert_eq!(event.highest_tipper, AccountId { key: 0 });
    assert_eq!(event.highest_tip_amount, 0);
    assert_eq!(event.status, EventStatus::Created);
    assert_eq!(event.mint, acct(21));
    assert_eq!(inventory.event_id, 0);
    assert_eq!(inventory.authority, creator);
    assert_eq!(inventory.tickets_amount, 250);
    assert_eq!(inventory.ticket_price, 1000);
    assert_eq!(inventory.tickets_sold, 0);
    assert_eq!(inventory.ticket_count, 0);
    assert_eq!(request.owner, creator);
    assert_eq!(request.name, "Show");
    assert_eq!(request.symbol, "SHOW");
    assert_eq!(request.uri, "https://example.org/show.json");

    let (second, _, _) = create_event(
        &mut registry,
        creator,
        String::from("Encore"),
        String::from("ENC"),
        String::from("https://example.org/encore.json"),
        String::from("The encore"),
        String::from("music"),
        0,
        500,
        SaleType::BlindAuction,
        10,
        200,
        60,
        acct(31),
        acct(32),
        acct(33),
    );
    assert_eq!(second.id, 1);
    assert_eq!(registry.event_count, 2);
}

#[test]
fn transition_created_to_live_gated_by_start_time() {
    let creator = acct(11);
    let mut event = plain_event(0, creator, EventStatus::Created);
    let before = event.clone();
    let res = update_event_status(&mut event, creator, EventStatus::Live, 99);
    assert_eq!(res, Err(EventFactoryError::EventNotStarted));
    assert_eq!(event, before);
    let res = update_event_status(&mut event, creator, EventStatus::Live, 100);
    assert_eq!(res, Ok(()));
    assert_eq!(event.status, EventStatus::Live);
}

#[test]
fn transition_live_to_completed_gated_by_end_time() {
    let creator = acct(11);
    let mut event = plain_event(0, creator, EventStatus::Live);
    let before = event.clone();
    let res = update_event_status(&mut event, creator, EventStatus::Completed, 149);
    assert_eq!(res, Err(EventFactoryError::EventNotEnded));
    assert_eq!(event, before);
    let res = update_event_status(&mut event, creator, EventStatus::Completed, 150);
    assert_eq!(res, Ok(()));
    assert_eq!(event.status, EventStatus::Completed);
}

#[test]
fn invalid_transitions_rejected_unchanged() {
    let creator = acct(11);
    let cases = [
        (EventStatus::Created, EventStatus::Created),
        (EventStatus::Created, EventStatus::Completed),
        (EventStatus::Created, EventStatus::Finalized),
        (EventStatus::Live, EventStatus::Created),
        (EventStatus::Live, EventStatus::Live),
        (EventStatus::Live, EventStatus::Finalized),
        (EventStatus::Completed, EventStatus::Created),
        (EventStatus::Completed, EventStatus::Live),
        (EventStatus::Completed, EventStatus::Completed),
        (EventStatus::Completed, EventStatus::Finalized),
        (EventStatus::Finalized, EventStatus::Created),
        (EventStatus::Finalized, EventStatus::Live),
        (EventStatus::Finalized, EventStatus::Completed),
        (EventStatus::Finalized, EventStatus::Finalized),
    ];
    for (from, to) in cases {
        let mut event = plain_event(0, creator, from);
        let before = event.clone();
        let res = update_event_status(&mut event, creator, to, 1_000_000);
        assert_eq!(res, Err(EventFactoryError::InvalidStatusTransition));
        assert_eq!(event, before);
    }
}

#[test]
fn update_status_requires_authority() {
    let creator = acct(11);
    let mut event = plain_event(0, creator, EventStatus::Created);
    let before = event.clone();
    let res = update_event_status(&mut event, acct(99), EventStatus::Live, 150);
    assert_eq!(res, Err(EventFactoryError::Unauthorized));
    assert_eq!(event, before);
}

#[test]
fn add_content_gated_by_status_and_authority() {
    let creator = acct(11);
    let event = plain_event(0, creator, EventStatus::Created);
    let res = add_content_to_event(&event, creator, String::from("https://example.org/a.json"));
    assert_eq!(res, Err(EventFactoryError::CannotAddContent));
    let res = add_content_to_event(&event, acct(99), String::from("https://example.org/a.json"));
    assert_eq!(res, Err(EventFactoryError::Unauthorized));

    let live = plain_event(0, creator, EventStatus::Live);
    let update = add_content_to_event(&live, creator, String::from("https://example.org/a.json"))
        .expect("live event takes content");
    assert_eq!(update.metadata, live.metadata);
    assert_eq!(update.uri, "https://example.org/a.json");

    let done = plain_event(0, creator, EventStatus::Completed);
    let update = add_content_to_event(&done, creator, String::from("https://example.org/b.json"))
        .expect("completed event takes content");
    assert_eq!(update.uri, "https://example.org/b.json");

    let finalized = plain_event(0, creator, EventStatus::Finalized);
    let res = add_content_to_event(&finalized, creator, String::from("x"));
    assert_eq!(res, Err(EventFactoryError::CannotAddContent));
}

#[test]
fn finalize_full_scenario() {
    // Registry at 100 parts per thousand (10%); unlimited inventory; three
    // tips of 500, 1500 and 1200 while Live.
    let mut registry = fresh_registry(100);
    let creator = acct(11);
    let (mut event, _inventory, _request) = create_event(
        &mut registry,
        creator,
        String::from("Show"),
        String::from("SHOW"),
        String::from("https://example.org/show.json"),
        String::from("An evening show"),
        String::from("music"),
        0,
        1000,
        SaleType::CumulativeTips,
        0,
        100,
        50,
        acct(21),
        acct(22),
        acct(23),
    );
    update_event_status(&mut event, creator, EventStatus::Live, 110).expect("goes live");
    tip_creator(&mut event, 0, acct(31), 500, 10_000, 111).expect("first tip");
    tip_creator(&mut event, 0, acct(32), 1500, 10_000, 112).expect("second tip");
    tip_creator(&mut event, 0, acct(33), 1200, 10_000, 113).expect("third tip");
    assert_eq!(event.total_tips, 3200);
    assert_eq!(event.highest_tipper, acct(32));
    assert_eq!(event.highest_tip_amount, 1500);
    update_event_status(&mut event, creator, EventStatus::Completed, 160).expect("completes");

    let payout = finalize_event(&registry, &mut event, creator).expect("finalizes");
    assert_eq!(payout.fee_amount, 320);
    assert_eq!(payout.artist_amount, 2880);
    assert_eq!(payout.fee_amount + payout.artist_amount, event.total_tips);
    assert_eq!(payout.treasury, acct(2));
    assert_eq!(payout.creator, creator);
    assert_eq!(payout.collectible_to, Some(acct(32)));
    assert_eq!(event.status, EventStatus::Finalized);
}

#[test]
fn finalize_requires_completed() {
    let creator = acct(11);
    let registry = fresh_registry(100);
    for status in [EventStatus::Created, EventStatus::Live] {
        let mut event = plain_event(0, creator, status);
        event.total_tips = 500;
        let before = event.clone();
        let res = finalize_event(&registry, &mut event, creator);
        assert_eq!(res, Err(EventFactoryError::EventNotCompleted));
        assert_eq!(event, before);
    }
}

#[test]
fn finalize_requires_tips() {
    // A zero-tip event has no path to Finalized.
    let creator = acct(11);
    let registry = fresh_registry(100);
    let mut event = plain_event(0, creator, EventStatus::Completed);
    let before = event.clone();
    let res = finalize_event(&registry, &mut event, creator);
    assert_eq!(res, Err(EventFactoryError::NoTips));
    assert_eq!(event, before);
}

#[test]
fn finalize_twice_fails() {
    let creator = acct(11);
    let registry = fresh_registry(100);
    let mut event = plain_event(0, creator, EventStatus::Completed);
    event.total_tips = 1000;
    event.highest_tipper = acct(31);
    event.highest_tip_amount = 1000;
    finalize_event(&registry, &mut event, creator).expect("first finalize");
    assert_eq!(event.status, EventStatus::Finalized);
    let before = event.clone();
    let res = finalize_event(&registry, &mut event, creator);
    assert_eq!(res, Err(EventFactoryError::EventNotCompleted));
    assert_eq!(event, before);
}

#[test]
fn finalize_requires_authority() {
    let creator = acct(11);
    let registry = fresh_registry(100);
    let mut event = plain_event(0, creator, EventStatus::Completed);
    event.total_tips = 1000;
    let res = finalize_event(&registry, &mut event, acct(99));
    assert_eq!(res, Err(EventFactoryError::Unauthorized));
    assert_eq!(event.status, EventStatus::Completed);
}

#[test]
fn finalize_fee_overflow_is_hard_failure() {
    let creator = acct(11);
    let registry = fresh_registry(u64::MAX);
    let mut event = plain_event(0, creator, EventStatus::Completed);
    event.total_tips = 2;
    let before = event.clone();
    let res = finalize_event(&registry, &mut event, creator);
    assert_eq!(res, Err(EventFactoryError::CalculationError));
    assert_eq!(event, before);
}

#[test]
fn finalize_fee_above_total_is_hard_failure() {
    // A rate over 1000 parts per thousand would pay out more than was
    // collected; the subtraction refuses.
    let creator = acct(11);
    let registry = fresh_registry(2000);
    let mut event = plain_event(0, creator, EventStatus::Completed);
    event.total_tips = 1000;
    let res = finalize_event(&registry, &mut event, creator);
    assert_eq!(res, Err(EventFactoryError::CalculationError));
}

#[test]
fn finalize_without_highest_tipper_transfers_nothing() {
    let creator = acct(11);
    let registry = fresh_registry(100);
    let mut event = plain_event(0, creator, EventStatus::Completed);
    event.total_tips = 1000;
    let payout = finalize_event(&registry, &mut event, creator).expect("finalizes");
    assert_eq!(payout.collectible_to, None);
    assert_eq!(payout.fee_amount, 100);
    assert_eq!(payout.artist_amount, 900);
}

#[test]
fn fee_split_rounds_down_and_loses_nothing() {
    let creator = acct(11);
    let registry = fresh_registry(333);
    let mut event = plain_event(0, creator, EventStatus::Completed);
    event.total_tips = 999;
    let payout = finalize_event(&registry, &mut event, creator).expect("finalizes");
    // floor(999 * 333 / 1000) = floor(332.667) = 332
    assert_eq!(payout.fee_amount, 332);
    assert_eq!(payout.artist_amount, 667);
    assert_eq!(payout.fee_amount + payout.artist_amount, 999);
}

#[test]
fn fee_split_zero_rate_pays_artist_everything() {
    let creator = acct(11);
    let registry = fresh_registry(0);
    let mut event = plain_event(0, creator, EventStatus::Completed);
    event.total_tips = 12345;
    let payout = finalize_event(&registry, &mut event, creator).expect("finalizes");
    assert_eq!(payout.fee_amount, 0);
    assert_eq!(payout.artist_amount, 12345);
}
