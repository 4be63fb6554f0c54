//! On-chain business logic for a live-event platform: an event lifecycle
//! manager with a singleton factory registry, a per-event ticket sales
//! ledger, and a live tipping ledger.
//!
//! The library holds the decision and state-transition logic as verified
//! functions over plain records. The runtime around it (account lookup,
//! signature checks at the boundary, custodial balance transfers, and the
//! collectible issuer) performs the effects that these functions direct.

pub mod event_factory;
pub mod ids;
pub mod live_tipping;
pub mod ticket_factory;
