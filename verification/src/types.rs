//! The data model: creatures, their gameplay companions, auctions, game
//! events, the error taxonomy and the event log entries.
//!
//! Identifiers, accounts, block heights and balances are plain integers; the
//! host that embeds the ledger converts its own opaque identifier types to and
//! from them at the boundary.

use vstd::prelude::*;

verus! {

/// Admission control: how many auctions may be created within one block.
pub const MAX_AUCTIONS_PER_BLOCK: u64 = 2;

/// Admission control: how many game events may be processed within one block.
pub const MAX_EVENTS_PER_BLOCK: u64 = 10;

/// Rarity classification of a creature, written once at creation.
#[derive(Clone, Copy, PartialEq, Eq, Structural, Debug)]
pub enum RarityType {
    Common,
    Rare,
    Epic,
    Legendary,
}

/// Classification of a game event, defined by the gameplay collaborator.
#[derive(Clone, Copy, PartialEq, Eq, Structural, Debug)]
pub enum GameEventType {
    Default,
    Hatch,
}

/// A creature record.  Everything but `price` is write-once: `price` is
/// rewritten when the creature is sold at auction.
#[derive(Clone, Copy, PartialEq, Eq, Structural, Debug)]
pub struct MogwaiStruct {
    /// The creature's identity, unique over the life of the ledger.
    pub id: u64,
    /// Opaque genetic fingerprint, produced by the breeding collaborator.
    pub dna: u64,
    /// Block height at which the creature was created.
    pub genesis: u64,
    /// Last sale price.
    pub price: u64,
    /// Ancestor depth.
    pub gen: u32,
    /// Rarity classification.
    pub rarity: RarityType,
}

/// The mutable gameplay companion of a creature, created and destroyed in
/// lockstep with it and mutated only by gameplay collaborators.
#[derive(Clone, PartialEq, Eq, Debug)]
pub struct MogwaiBios {
    /// The id of the creature this record accompanies.
    pub mogwai_id: u64,
    /// Lifecycle flags.
    pub state: u32,
    /// Incremental trait snapshots.
    pub metaxy: Vec<[u8; 16]>,
    /// Accruable balance internal to the creature.
    pub intrinsic: u64,
    /// Bounded level.
    pub level: u8,
    /// Block heights of lifecycle transitions.
    pub phases: Vec<u64>,
    /// References to applied game events.
    pub adaptations: Vec<u64>,
}

/// A game event, created by an external trigger and read-only to this core
/// beyond being linked into a creature's adaptations.
#[derive(Clone, PartialEq, Eq, Debug)]
pub struct GameEvent {
    pub id: u64,
    pub begin: u64,
    pub duration: u16,
    pub event_type: GameEventType,
    pub hashes: Vec<u64>,
    pub value: u64,
}

/// A live auction over one creature.  `high_bidder` is `None` until a real
/// bid arrives; `high_bid` then equals that bidder's reserved amount.
#[derive(Clone, Copy, PartialEq, Eq, Structural, Debug)]
pub struct Auction {
    /// The creature on sale.
    pub mogwai_id: u64,
    /// The seller: the creature's owner when the auction was created.
    pub mogwai_owner: u64,
    /// The block height at which the auction is settled.
    pub expiry: u64,
    /// The least amount the first bid must exceed.
    pub min_bid: u64,
    /// The highest bid so far, or `min_bid` while no bid exists.
    pub high_bid: u64,
    /// The account holding the highest bid, or `None` while no bid exists.
    pub high_bidder: Option<u64>,
}

/// Why an operation was rejected.  A rejected operation leaves the ledger
/// unchanged.
#[derive(Clone, Copy, PartialEq, Eq, Structural, Debug)]
pub enum Error {
    /// A stored counter was never set.
    NoneValue,
    /// A stored counter cannot grow any further.
    StorageOverflow,
    /// A referenced creature, auction or bid is absent.
    NotFound,
    /// A stated precondition of the operation does not hold, such as the
    /// caller not owning the creature, a duplicate listing, a bid that is too
    /// low, or a cancellation after a genuine bid.
    PreconditionViolation,
    /// A per-block admission limit was reached.
    CapacityExceeded,
    /// The paying account's free balance does not cover the amount.
    InsufficientFunds,
    /// An internal invariant would be broken; indicates a bug, never expected
    /// in correct operation.
    InternalInvariantViolation,
}

/// A record of a noteworthy state change, appended to the ledger's event log.
#[derive(Clone, Copy, PartialEq, Eq, Structural, Debug)]
pub enum Event {
    /// A value was stored by an account. [something, who]
    SomethingStored(u32, u64),
}

} // verus!
