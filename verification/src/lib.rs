//! A ledger of uniquely owned digital creatures ("mogwais") together with a
//! block-driven auction marketplace for trading them.
//!
//! The crate keeps dense, swap-remove enumeration indices over a sparse keyed
//! store, so creatures can be listed globally and per owner without linear
//! scans, and runs an auction state machine that creates, extends via bidding,
//! and deterministically settles or voids auctions at expiry.  All state lives
//! in an explicit [`ledger::Ledger`] value; every operation validates before it
//! writes, so a rejected operation leaves the state unchanged.

pub mod auction;
pub mod currency;
pub mod driver;
pub mod index;
pub mod laws;
pub mod ledger;
pub mod store;
pub mod types;

pub use currency::AccountBalance;
pub use currency::Currency;
pub use index::EnumIndex;
pub use ledger::GenesisConfig;
pub use ledger::Ledger;
pub use store::KeyedStore;
pub use types::Auction;
pub use types::Error;
pub use types::Event;
pub use types::GameEvent;
pub use types::GameEventType;
pub use types::MogwaiBios;
pub use types::MogwaiStruct;
pub use types::RarityType;
pub use types::MAX_AUCTIONS_PER_BLOCK;
pub use types::MAX_EVENTS_PER_BLOCK;
