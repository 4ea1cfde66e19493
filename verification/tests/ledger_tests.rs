//! Tests for the ledger plumbing and the creature registry: the stored
//! counter, creation, transfer, burning, and the enumeration indices.

use dotmog::ledger::GenesisConfig;
use dotmog::ledger::Ledger;
use dotmog::types::Error;
use dotmog::types::Event;
use dotmog::types::RarityType;

const ALICE: u64 = 1;
const BOB: u64 = 2;
const CAROL: u64 = 3;

fn fresh() -> Ledger {
    GenesisConfig { key: 0 }.build()
}

#[test]
fn it_works_for_default_value() {
    let mut l = fresh();
    // Dispatch a signed call.
    l.do_something(ALICE, 42);
    // Read storage and assert an expected result.
    assert_eq!(l.something(), Some(42));
    assert_eq!(l.events().last(), Some(&Event::SomethingStored(42, ALICE)));
}

#[test]
fn correct_error_for_none_value() {
    let mut l = fresh();
    // Ensure the expected error is thrown when no value is present.
    assert_eq!(l.cause_error(ALICE), Err(Error::NoneValue));
}

#[test]
fn cause_error_increments_and_overflows() {
    let mut l = fresh();
    l.do_something(ALICE, 41);
    assert_eq!(l.cause_error(ALICE), Ok(()));
    assert_eq!(l.something(), Some(42));
    l.do_something(ALICE, u32::MAX);
    assert_eq!(l.cause_error(ALICE), Err(Error::StorageOverflow));
    assert_eq!(l.something(), Some(u32::MAX));
}

#[test]
fn genesis_build_sets_key() {
    let l = GenesisConfig { key: 7 }.build();
    assert_eq!(l.key(), 7);
    assert_eq!(l.all_mogwais_count(), 0);
    let d = GenesisConfig::default();
    assert_eq!(d.key, 0);
}

#[test]
fn create_fills_both_indices() {
    let mut l = fresh();
    let id = l.create(ALICE, 0xD7A, 1, RarityType::Rare, 5).unwrap();
    assert_eq!(l.all_mogwais_count(), 1);
    assert_eq!(l.owned_mogwais_count(ALICE), 1);
    assert_eq!(l.owner_of(id), Some(ALICE));
    assert_eq!(l.mogwai_by_index(0), Some(id));
    assert_eq!(l.mogwai_of_owner_by_index(ALICE, 0), Some(id));
    let m = l.mogwai(id).unwrap();
    assert_eq!(m.id, id);
    assert_eq!(m.dna, 0xD7A);
    assert_eq!(m.gen, 1);
    assert_eq!(m.rarity, RarityType::Rare);
    assert_eq!(m.price, 5);
    let b = l.mogwai_bios(id).unwrap();
    assert_eq!(b.mogwai_id, id);
    assert_eq!(b.state, 0);
    assert!(b.metaxy.is_empty());
    assert_eq!(b.level, 0);
}

#[test]
fn transfer_moves_between_owner_indices() {
    let mut l = fresh();
    let id = l.create(ALICE, 1, 0, RarityType::Common, 0).unwrap();
    assert_eq!(l.transfer(id, ALICE, BOB), Ok(()));
    assert_eq!(l.owner_of(id), Some(BOB));
    assert_eq!(l.owned_mogwais_count(ALICE), 0);
    assert_eq!(l.owned_mogwais_count(BOB), 1);
    assert_eq!(l.all_mogwais_count(), 1);
}

#[test]
fn transfer_rejections() {
    let mut l = fresh();
    let id = l.create(ALICE, 1, 0, RarityType::Common, 0).unwrap();
    assert_eq!(l.transfer(99, ALICE, BOB), Err(Error::NotFound));
    assert_eq!(l.transfer(id, BOB, CAROL), Err(Error::PreconditionViolation));
    assert_eq!(l.transfer(id, ALICE, ALICE), Err(Error::PreconditionViolation));
    assert_eq!(l.owner_of(id), Some(ALICE));
}

#[test]
fn burn_removes_everything() {
    let mut l = fresh();
    let a = l.create(ALICE, 1, 0, RarityType::Common, 0).unwrap();
    let b = l.create(ALICE, 2, 0, RarityType::Epic, 0).unwrap();
    let c = l.create(BOB, 3, 0, RarityType::Common, 0).unwrap();
    assert_eq!(l.all_mogwais_count(), 3);
    assert_eq!(l.burn(a), Ok(()));
    assert_eq!(l.all_mogwais_count(), 2);
    assert_eq!(l.owned_mogwais_count(ALICE), 1);
    assert_eq!(l.owned_mogwais_count(BOB), 1);
    assert!(l.mogwai(a).is_none());
    assert!(l.mogwai_bios(a).is_none());
    assert_eq!(l.owner_of(a), None);
    // the swap-removed index still round-trips for the survivors
    assert_eq!(l.mogwai_by_index(0), Some(c));
    assert_eq!(l.mogwai_by_index(1), Some(b));
    assert_eq!(l.burn(a), Err(Error::NotFound));
}

#[test]
fn swap_remove_keeps_membership_and_counts() {
    // remove from the middle of a populated index of size three
    let mut l = fresh();
    let a = l.create(ALICE, 1, 0, RarityType::Common, 0).unwrap();
    let b = l.create(ALICE, 2, 0, RarityType::Common, 0).unwrap();
    let c = l.create(ALICE, 3, 0, RarityType::Common, 0).unwrap();
    assert_eq!(l.burn(b), Ok(()));
    assert_eq!(l.all_mogwais_count(), 2);
    assert_eq!(l.owned_mogwais_count(ALICE), 2);
    let i0 = l.mogwai_by_index(0).unwrap();
    let i1 = l.mogwai_by_index(1).unwrap();
    assert!(i0 != i1);
    assert!(i0 == a || i0 == c);
    assert!(i1 == a || i1 == c);
    assert_eq!(l.mogwai_by_index(2), None);
}

#[test]
fn ids_are_fresh_and_sequential() {
    let mut l = fresh();
    let a = l.create(ALICE, 1, 0, RarityType::Common, 0).unwrap();
    let b = l.create(BOB, 2, 0, RarityType::Common, 0).unwrap();
    assert!(a != b);
    let c = l.create(ALICE, 3, 0, RarityType::Common, 0).unwrap();
    assert!(c != a && c != b);
}

#[test]
fn owner_indices_partition_the_live_set() {
    let mut l = fresh();
    let a = l.create(ALICE, 1, 0, RarityType::Common, 0).unwrap();
    let b = l.create(BOB, 2, 0, RarityType::Common, 0).unwrap();
    let c = l.create(ALICE, 3, 0, RarityType::Common, 0).unwrap();
    l.transfer(c, ALICE, CAROL).unwrap();
    l.burn(b).unwrap();
    // every live creature sits in exactly one owner's index, and the
    // per-owner counts sum to the global count
    assert_eq!(l.all_mogwais_count(), 2);
    let counts =
        l.owned_mogwais_count(ALICE) + l.owned_mogwais_count(BOB) + l.owned_mogwais_count(CAROL);
    assert_eq!(counts, 2);
    assert_eq!(l.mogwai_of_owner_by_index(ALICE, 0), Some(a));
    assert_eq!(l.mogwai_of_owner_by_index(CAROL, 0), Some(c));
    assert_eq!(l.mogwai_of_owner_by_index(BOB, 0), None);
}

#[test]
fn endow_and_balances() {
    let mut l = fresh();
    assert_eq!(l.free_balance(ALICE), 0);
    l.endow(ALICE, 500);
    assert_eq!(l.free_balance(ALICE), 500);
    assert_eq!(l.reserved_balance(ALICE), 0);
    l.endow(ALICE, u64::MAX);
    assert_eq!(l.free_balance(ALICE), u64::MAX);
}
