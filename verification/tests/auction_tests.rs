//! Tests for the auction book and the block clock driver: listing, bidding,
//! cancelling, settlement, voiding beyond the per-block budget, and the
//! admission limit on auction creation.

use dotmog::ledger::GenesisConfig;
use dotmog::ledger::Ledger;
use dotmog::types::Error;
use dotmog::types::RarityType;
use dotmog::types::MAX_AUCTIONS_PER_BLOCK;

const ALICE: u64 = 1;
const BOB: u64 = 2;
const CAROL: u64 = 3;

fn fresh() -> Ledger {
    GenesisConfig { key: 0 }.build()
}

#[test]
fn full_auction_scenario() {
    let mut l = fresh();
    l.endow(BOB, 1_000);
    l.endow(CAROL, 1_000);
    // create creature C1 owned by Alice at block 10
    l.on_new_block(10);
    let c1 = l.create(ALICE, 0xC1, 0, RarityType::Common, 0).unwrap();
    assert_eq!(l.mogwai(c1).unwrap().genesis, 10);
    assert_eq!(l.all_mogwais_count(), 1);
    assert_eq!(l.owned_mogwais_count(ALICE), 1);
    // list with min_bid=100 and duration=5: expiry 15, bucket[15] holds C1
    assert_eq!(l.create_auction(c1, ALICE, 100, 5), Ok(()));
    let a = l.auction_of(c1).unwrap();
    assert_eq!(a.expiry, 15);
    assert_eq!(a.min_bid, 100);
    assert_eq!(a.high_bid, 100);
    assert_eq!(a.high_bidder, None);
    assert_eq!(l.auctions_expire_at(15).unwrap().as_slice(), &[c1]);
    // Bob bids 150
    assert_eq!(l.bid(c1, BOB, 150), Ok(()));
    let a = l.auction_of(c1).unwrap();
    assert_eq!(a.high_bid, 150);
    assert_eq!(a.high_bidder, Some(BOB));
    assert_eq!(l.free_balance(BOB), 850);
    assert_eq!(l.reserved_balance(BOB), 150);
    assert_eq!(l.bid_of(c1, BOB), 150);
    assert_eq!(l.bid_accounts(c1), vec![BOB]);
    // Carol bids 200: Bob is refunded his 150 at once
    assert_eq!(l.bid(c1, CAROL, 200), Ok(()));
    let a = l.auction_of(c1).unwrap();
    assert_eq!(a.high_bid, 200);
    assert_eq!(a.high_bidder, Some(CAROL));
    assert_eq!(l.free_balance(BOB), 1_000);
    assert_eq!(l.reserved_balance(BOB), 0);
    assert_eq!(l.reserved_balance(CAROL), 200);
    assert_eq!(l.bid_accounts(c1), vec![CAROL]);
    // conservation at settlement time: refunds (none outstanding) plus the
    // captured payment equal the outstanding reservations, 200
    assert_eq!(l.bid_of(c1, CAROL), 200);
    // the driver runs at block 15
    l.on_new_block(15);
    assert_eq!(l.owner_of(c1), Some(CAROL));
    assert_eq!(l.owned_mogwais_count(ALICE), 0);
    assert_eq!(l.owned_mogwais_count(CAROL), 1);
    assert_eq!(l.free_balance(ALICE), 200);
    assert_eq!(l.free_balance(CAROL), 800);
    assert_eq!(l.reserved_balance(CAROL), 0);
    assert_eq!(l.mogwai(c1).unwrap().price, 200);
    assert!(l.auction_of(c1).is_none());
    assert!(l.auctions_expire_at(15).is_none());
    assert_eq!(l.bid_of(c1, CAROL), 0);
}

#[test]
fn create_auction_rejected_at_capacity() {
    let mut l = fresh();
    let mut ids = Vec::new();
    for i in 0..(MAX_AUCTIONS_PER_BLOCK + 1) {
        ids.push(l.create(ALICE, i, 0, RarityType::Common, 0).unwrap());
    }
    for (i, id) in ids.iter().enumerate() {
        let r = l.create_auction(*id, ALICE, 10, 5);
        if (i as u64) < MAX_AUCTIONS_PER_BLOCK {
            assert_eq!(r, Ok(()));
        } else {
            // state unchanged, error is CapacityExceeded
            assert_eq!(r, Err(Error::CapacityExceeded));
            assert!(l.auction_of(*id).is_none());
        }
    }
    // the budget resets with the next block
    l.on_new_block(1);
    assert_eq!(l.create_auction(ids[MAX_AUCTIONS_PER_BLOCK as usize], ALICE, 10, 5), Ok(()));
}

#[test]
fn create_auction_rejections() {
    let mut l = fresh();
    let id = l.create(ALICE, 1, 0, RarityType::Common, 0).unwrap();
    assert_eq!(l.create_auction(99, ALICE, 10, 5), Err(Error::NotFound));
    assert_eq!(l.create_auction(id, BOB, 10, 5), Err(Error::PreconditionViolation));
    assert_eq!(l.create_auction(id, ALICE, 10, 0), Err(Error::PreconditionViolation));
    assert_eq!(l.create_auction(id, ALICE, 10, 5), Ok(()));
    // a second listing over the same creature is refused
    assert_eq!(l.create_auction(id, ALICE, 10, 5), Err(Error::PreconditionViolation));
}

#[test]
fn bid_rejections() {
    let mut l = fresh();
    l.endow(BOB, 100);
    let id = l.create(ALICE, 1, 0, RarityType::Common, 0).unwrap();
    assert_eq!(l.bid(id, BOB, 50), Err(Error::NotFound));
    l.create_auction(id, ALICE, 40, 5).unwrap();
    // the seller cannot bid on their own auction
    assert_eq!(l.bid(id, ALICE, 50), Err(Error::PreconditionViolation));
    // a bid must exceed the high bid, which starts at the minimum
    assert_eq!(l.bid(id, BOB, 40), Err(Error::PreconditionViolation));
    // a bid beyond the bidder's free balance is refused
    assert_eq!(l.bid(id, BOB, 101), Err(Error::InsufficientFunds));
    assert_eq!(l.free_balance(BOB), 100);
    assert_eq!(l.bid(id, BOB, 50), Ok(()));
    // the high bidder cannot outbid themselves
    assert_eq!(l.bid(id, BOB, 60), Err(Error::PreconditionViolation));
}

#[test]
fn every_successful_bid_strictly_raises_the_high_bid() {
    let mut l = fresh();
    l.endow(BOB, 1_000);
    l.endow(CAROL, 1_000);
    let id = l.create(ALICE, 1, 0, RarityType::Common, 0).unwrap();
    l.create_auction(id, ALICE, 10, 5).unwrap();
    let mut last = l.auction_of(id).unwrap().high_bid;
    let bidders = [BOB, CAROL, BOB, CAROL];
    let amounts = [11, 40, 41, 100];
    for (b, amt) in bidders.iter().zip(amounts.iter()) {
        l.bid(id, *b, *amt).unwrap();
        let now_high = l.auction_of(id).unwrap().high_bid;
        assert!(now_high > last);
        last = now_high;
    }
    assert_eq!(last, 100);
}

#[test]
fn cancel_only_before_real_bids() {
    let mut l = fresh();
    l.endow(BOB, 100);
    let id = l.create(ALICE, 1, 0, RarityType::Common, 0).unwrap();
    assert_eq!(l.cancel_auction(id, ALICE), Err(Error::NotFound));
    l.create_auction(id, ALICE, 10, 5).unwrap();
    assert_eq!(l.cancel_auction(id, BOB), Err(Error::PreconditionViolation));
    assert_eq!(l.cancel_auction(id, ALICE), Ok(()));
    assert!(l.auction_of(id).is_none());
    assert_eq!(l.auctions_expire_at(5).unwrap().len(), 0);
    // once a real bid exists the auction is contested and cannot be cancelled
    l.create_auction(id, ALICE, 10, 5).unwrap();
    l.bid(id, BOB, 20).unwrap();
    assert_eq!(l.cancel_auction(id, ALICE), Err(Error::PreconditionViolation));
}

#[test]
fn settle_without_bids_lapses() {
    let mut l = fresh();
    let id = l.create(ALICE, 1, 0, RarityType::Common, 0).unwrap();
    l.create_auction(id, ALICE, 10, 5).unwrap();
    l.on_new_block(5);
    // no real bid: the listing lapses without transfer or payment
    assert_eq!(l.owner_of(id), Some(ALICE));
    assert_eq!(l.free_balance(ALICE), 0);
    assert!(l.auction_of(id).is_none());
}

#[test]
fn settle_is_idempotent() {
    let mut l = fresh();
    l.endow(BOB, 100);
    let id = l.create(ALICE, 1, 0, RarityType::Common, 0).unwrap();
    l.create_auction(id, ALICE, 10, 5).unwrap();
    l.bid(id, BOB, 20).unwrap();
    l.settle(id);
    assert_eq!(l.owner_of(id), Some(BOB));
    assert_eq!(l.free_balance(ALICE), 20);
    let count = l.all_mogwais_count();
    // settling the same id again changes nothing
    l.settle(id);
    assert_eq!(l.owner_of(id), Some(BOB));
    assert_eq!(l.free_balance(ALICE), 20);
    assert_eq!(l.free_balance(BOB), 80);
    assert_eq!(l.all_mogwais_count(), count);
}

#[test]
fn driver_voids_beyond_its_budget() {
    let mut l = fresh();
    l.endow(BOB, 1_000);
    // three auctions expire at block 10: two created in block 0, one in block 1
    let mut ids = Vec::new();
    for i in 0..MAX_AUCTIONS_PER_BLOCK {
        let id = l.create(ALICE, i, 0, RarityType::Common, 0).unwrap();
        l.create_auction(id, ALICE, 10, 10).unwrap();
        ids.push(id);
    }
    l.on_new_block(1);
    let extra = l.create(ALICE, 99, 0, RarityType::Common, 0).unwrap();
    l.create_auction(extra, ALICE, 10, 9).unwrap();
    for id in ids.iter() {
        l.bid(*id, BOB, 20).unwrap();
    }
    l.bid(extra, BOB, 20).unwrap();
    assert_eq!(l.reserved_balance(BOB), 60);
    l.on_new_block(10);
    // the first two are settled, the third is voided: refund, no transfer
    for id in ids.iter() {
        assert_eq!(l.owner_of(*id), Some(BOB));
    }
    assert_eq!(l.owner_of(extra), Some(ALICE));
    assert!(l.auction_of(extra).is_none());
    assert_eq!(l.reserved_balance(BOB), 0);
    assert_eq!(l.free_balance(BOB), 1_000 - 40);
    assert_eq!(l.free_balance(ALICE), 40);
}

#[test]
fn transfer_and_burn_refused_while_listed() {
    let mut l = fresh();
    let id = l.create(ALICE, 1, 0, RarityType::Common, 0).unwrap();
    l.create_auction(id, ALICE, 10, 5).unwrap();
    assert_eq!(l.transfer(id, ALICE, BOB), Err(Error::PreconditionViolation));
    assert_eq!(l.burn(id), Err(Error::PreconditionViolation));
    l.cancel_auction(id, ALICE).unwrap();
    assert_eq!(l.transfer(id, ALICE, BOB), Ok(()));
}

#[test]
fn settlement_conservation_in_numbers() {
    // the captured payment plus refunds equals the reservations outstanding
    // just before settlement: Bob's 150 was refunded when Carol outbid him,
    // so 200 is outstanding and 200 is captured
    let mut l = fresh();
    l.endow(BOB, 500);
    l.endow(CAROL, 500);
    let id = l.create(ALICE, 1, 0, RarityType::Common, 0).unwrap();
    l.create_auction(id, ALICE, 100, 5).unwrap();
    l.bid(id, BOB, 150).unwrap();
    l.bid(id, CAROL, 200).unwrap();
    let outstanding = l.bid_of(id, BOB) + l.bid_of(id, CAROL);
    assert_eq!(outstanding, 200);
    let alice_before = l.free_balance(ALICE);
    let total_before =
        l.free_balance(ALICE) + l.free_balance(BOB) + l.free_balance(CAROL)
            + l.reserved_balance(BOB) + l.reserved_balance(CAROL);
    l.settle(id);
    let captured = l.free_balance(ALICE) - alice_before;
    assert_eq!(captured, 200);
    let total_after =
        l.free_balance(ALICE) + l.free_balance(BOB) + l.free_balance(CAROL)
            + l.reserved_balance(BOB) + l.reserved_balance(CAROL);
    assert_eq!(total_before, total_after);
}
