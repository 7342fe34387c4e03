//! Model of the outgoing side of an invocation: the event groups a contract
//! returns for the host to carry out, and the raw domain events some
//! contracts attach for off-chain observers.

use crate::host::Address;
use vstd::prelude::*;

verus! {

/// One binary call to another contract: destination address and the encoded
/// payload (shortname byte followed by the encoded arguments).
#[derive(Debug)]
pub struct Interaction {
    /// The contract being called.
    pub dest: Address,
    /// The encoded call: one shortname byte, then the arguments.
    pub payload: Vec<u8>,
}

/// A callback registration: once every interaction of the group has been
/// carried out, the host invokes this contract again under `shortname`,
/// passing the encoded `payload` back.
#[derive(Debug)]
pub struct Callback {
    /// Shortname of the callback entry point.
    pub shortname: u32,
    /// The encoded callback arguments.
    pub payload: Vec<u8>,
}

/// A domain event attached to an event group for off-chain observers.
#[derive(Debug)]
pub enum CampaignEvent {
    /// The campaign status changed.
    StatusChanged { campaign_address: Address, new_status_tag: u8, timestamp: u64 },
    /// A contribution commitment was received.
    ContributionReceived { contributor: Address, timestamp: u64 },
    /// The campaign finished processing.
    CampaignCompleted {
        campaign_address: Address,
        is_successful: bool,
        total_contributors: u32,
        total_raised: Option<u128>,
        timestamp: u64,
    },
    /// The owner withdrew the raised funds.
    FundsWithdrawn { campaign_address: Address, owner: Address, amount: u128, timestamp: u64 },
    /// A contributor was refunded.
    RefundProcessed { campaign_address: Address, contributor: Address, timestamp: u64 },
}

/// One group of effects returned by an invocation: calls to other contracts,
/// at most one callback once they are done, and raw events for observers.
#[derive(Debug)]
pub struct EventGroup {
    /// The calls to carry out.
    pub interactions: Vec<Interaction>,
    /// Invoked after the interactions, carrying their collective success.
    pub callback: Option<Callback>,
    /// Raw domain events, not addressed to any contract.
    pub raw_events: Vec<CampaignEvent>,
}

impl EventGroup {
    /// An event group with no interactions, no callback and no raw events.
    pub fn empty() -> (r: EventGroup)
        ensures
            r.interactions@.len() == 0,
            r.callback is None,
            r.raw_events@.len() == 0,
    {
        EventGroup { interactions: Vec::new(), callback: None, raw_events: Vec::new() }
    }
}

} // verus!
