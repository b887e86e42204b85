use dust_demons::address::{demon_address, same_key};
use dust_demons::level::{account_space, level_of_xp, next_level, MAX_LEVEL, XP_PER_LEVEL};
use dust_demons::store::{
    feed_demon, sacrifice_demon, spawn_demon, spawn_demon_at, Demon, DemonError, DemonStore, FeedDemon, SacrificeDemon,
    SpawnDemon,
};

const PROGRAM: [u8; 32] = [7; 32];
const ALICE: [u8; 32] = [1; 32];
const BOB: [u8; 32] = [2; 32];
const RENT: u64 = 1_500_000;
const RICH: u64 = 1_000_000_000_000;

fn address_of(owner: &[u8; 32]) -> [u8; 32] {
    demon_address(owner, &PROGRAM).expect("a viable bump").0
}

fn spawn(store: &mut DemonStore, owner: [u8; 32], name: &str) -> Result<(), DemonError> {
    let accounts = SpawnDemon { demon: address_of(&owner), user: owner, user_lamports: RICH, rent: RENT };
    spawn_demon(store, &accounts, name.to_string())
}

fn feed(store: &mut DemonStore, demon_owner: [u8; 32], signer: [u8; 32], amount: u64) -> Result<(), DemonError> {
    let accounts = FeedDemon { demon: address_of(&demon_owner), user: signer, user_lamports: RICH };
    feed_demon(store, &accounts, amount)
}

fn spawned_store(owner: [u8; 32]) -> DemonStore {
    let mut store = DemonStore::new(PROGRAM);
    spawn(&mut store, owner, "Azazel").unwrap();
    store
}

#[test]
fn spawn_then_read_gives_fresh_record() {
    let store = spawned_store(ALICE);
    let acct = store.get(&address_of(&ALICE)).unwrap();
    assert_eq!(acct.demon.level, 1);
    assert_eq!(acct.demon.xp, 0);
    assert_eq!(acct.demon.owner, ALICE);
    assert_eq!(acct.demon.name, "Azazel");
    assert_eq!(acct.demon.bump, demon_address(&ALICE, &PROGRAM).unwrap().1);
    assert_eq!(acct.lamports, RENT);
    assert_eq!(store.len(), 1);
}

#[test]
fn spawn_with_empty_name() {
    let mut store = DemonStore::new(PROGRAM);
    assert_eq!(spawn(&mut store, BOB, ""), Ok(()));
    assert_eq!(store.get(&address_of(&BOB)).unwrap().demon.name, "");
}

#[test]
fn second_spawn_is_already_initialized() {
    let mut store = spawned_store(ALICE);
    assert_eq!(spawn(&mut store, ALICE, "Belial"), Err(DemonError::AlreadyInitialized));
    assert_eq!(store.len(), 1);
    assert_eq!(store.get(&address_of(&ALICE)).unwrap().demon.name, "Azazel");
}

#[test]
fn two_owners_have_two_demons() {
    let mut store = spawned_store(ALICE);
    assert_eq!(spawn(&mut store, BOB, "Belial"), Ok(()));
    assert_eq!(store.len(), 2);
    assert_eq!(store.get(&address_of(&BOB)).unwrap().demon.owner, BOB);
}

#[test]
fn spawn_at_foreign_address_is_mismatch() {
    let mut store = DemonStore::new(PROGRAM);
    let accounts = SpawnDemon { demon: address_of(&BOB), user: ALICE, user_lamports: RICH, rent: RENT };
    assert_eq!(spawn_demon(&mut store, &accounts, "Azazel".to_string()), Err(DemonError::AddressMismatch));
    assert_eq!(store.len(), 0);
}

#[test]
fn spawn_without_rent_is_insufficient_funds() {
    let mut store = DemonStore::new(PROGRAM);
    let accounts = SpawnDemon { demon: address_of(&ALICE), user: ALICE, user_lamports: RENT - 1, rent: RENT };
    assert_eq!(spawn_demon(&mut store, &accounts, "Azazel".to_string()), Err(DemonError::InsufficientFunds));
    assert!(store.get(&address_of(&ALICE)).is_none());
}

#[test]
fn feeding_adds_exactly_the_amount() {
    let mut store = spawned_store(ALICE);
    assert_eq!(feed(&mut store, ALICE, ALICE, 12_345), Ok(()));
    assert_eq!(feed(&mut store, ALICE, ALICE, 0), Ok(()));
    assert_eq!(feed(&mut store, ALICE, ALICE, 55), Ok(()));
    let acct = store.get(&address_of(&ALICE)).unwrap();
    assert_eq!(acct.demon.xp, 12_400);
    assert_eq!(acct.demon.level, 1);
    assert_eq!(acct.lamports, RENT + 12_400);
}

#[test]
fn feeding_one_hundred_million_reaches_level_two() {
    let mut store = spawned_store(ALICE);
    assert_eq!(feed(&mut store, ALICE, ALICE, 100_000_000), Ok(()));
    assert_eq!(store.get(&address_of(&ALICE)).unwrap().demon.level, 2);
}

#[test]
fn feeding_one_short_stays_at_level_one() {
    let mut store = spawned_store(ALICE);
    assert_eq!(feed(&mut store, ALICE, ALICE, 99_999_999), Ok(()));
    assert_eq!(store.get(&address_of(&ALICE)).unwrap().demon.level, 1);
    assert_eq!(feed(&mut store, ALICE, ALICE, 1), Ok(()));
    assert_eq!(store.get(&address_of(&ALICE)).unwrap().demon.level, 2);
}

#[test]
fn level_caps_at_largest_byte() {
    let mut store = DemonStore::new(PROGRAM);
    let accounts = SpawnDemon { demon: address_of(&ALICE), user: ALICE, user_lamports: 0, rent: 0 };
    spawn_demon(&mut store, &accounts, "Azazel".to_string()).unwrap();
    let big = FeedDemon { demon: address_of(&ALICE), user: ALICE, user_lamports: u64::MAX };
    assert_eq!(feed_demon(&mut store, &big, u64::MAX), Ok(()));
    let acct = store.get(&address_of(&ALICE)).unwrap();
    assert_eq!(acct.demon.xp, u64::MAX);
    assert_eq!(acct.demon.level, MAX_LEVEL);
    assert_eq!(feed_demon(&mut store, &big, 1), Err(DemonError::Overflow));
    assert_eq!(store.get(&address_of(&ALICE)).unwrap().demon.xp, u64::MAX);
}

#[test]
fn stranger_cannot_feed() {
    let mut store = spawned_store(ALICE);
    assert_eq!(feed(&mut store, ALICE, BOB, 100_000_000), Err(DemonError::Unauthorized));
    let acct = store.get(&address_of(&ALICE)).unwrap();
    assert_eq!(acct.demon.xp, 0);
    assert_eq!(acct.lamports, RENT);
}

#[test]
fn feeding_missing_demon_is_not_found() {
    let mut store = spawned_store(ALICE);
    assert_eq!(feed(&mut store, BOB, BOB, 10), Err(DemonError::AccountNotFound));
}

#[test]
fn unfunded_feed_leaves_xp() {
    let mut store = spawned_store(ALICE);
    feed(&mut store, ALICE, ALICE, 500).unwrap();
    let poor = FeedDemon { demon: address_of(&ALICE), user: ALICE, user_lamports: 999 };
    assert_eq!(feed_demon(&mut store, &poor, 1_000), Err(DemonError::InsufficientFunds));
    let acct = store.get(&address_of(&ALICE)).unwrap();
    assert_eq!(acct.demon.xp, 500);
    assert_eq!(acct.lamports, RENT + 500);
    assert_eq!(feed_demon(&mut store, &poor, 999), Ok(()));
    assert_eq!(store.get(&address_of(&ALICE)).unwrap().demon.xp, 1_499);
}

#[test]
fn sacrifice_refunds_and_closes() {
    let mut store = spawned_store(ALICE);
    feed(&mut store, ALICE, ALICE, 42).unwrap();
    let accounts = SacrificeDemon { demon: address_of(&ALICE), user: ALICE };
    assert_eq!(sacrifice_demon(&mut store, &accounts), Ok(RENT + 42));
    assert!(store.get(&address_of(&ALICE)).is_none());
    assert_eq!(store.len(), 0);
    assert_eq!(sacrifice_demon(&mut store, &accounts), Err(DemonError::AccountNotFound));
    assert_eq!(feed(&mut store, ALICE, ALICE, 1), Err(DemonError::AccountNotFound));
}

#[test]
fn sacrifice_keeps_other_demons() {
    let mut store = spawned_store(ALICE);
    spawn(&mut store, BOB, "Belial").unwrap();
    let accounts = SacrificeDemon { demon: address_of(&ALICE), user: ALICE };
    assert_eq!(sacrifice_demon(&mut store, &accounts), Ok(RENT));
    assert_eq!(store.get(&address_of(&BOB)).unwrap().demon.name, "Belial");
    assert_eq!(spawn(&mut store, ALICE, "Azazel"), Ok(()));
    assert_eq!(store.len(), 2);
}

#[test]
fn stranger_cannot_sacrifice() {
    let mut store = spawned_store(ALICE);
    let accounts = SacrificeDemon { demon: address_of(&ALICE), user: BOB };
    assert_eq!(sacrifice_demon(&mut store, &accounts), Err(DemonError::Unauthorized));
    assert!(store.get(&address_of(&ALICE)).is_some());
}

#[test]
fn derived_address_matches_runtime_derivation() {
    let program = anchor_lang::prelude::Pubkey::new_from_array(PROGRAM);
    let (expected, bump) = anchor_lang::prelude::Pubkey::find_program_address(&[b"demon", &ALICE[..]], &program);
    let (address, found_bump) = demon_address(&ALICE, &PROGRAM).unwrap();
    assert_eq!(address, expected.to_bytes());
    assert_eq!(found_bump, bump);
    assert_ne!(address, ALICE);
    assert_ne!(address_of(&ALICE), address_of(&BOB));
}

#[test]
fn level_formula_values() {
    assert_eq!(XP_PER_LEVEL, 100_000_000);
    assert_eq!(level_of_xp(0), 1);
    assert_eq!(level_of_xp(99_999_999), 1);
    assert_eq!(level_of_xp(100_000_000), 2);
    assert_eq!(level_of_xp(25_400_000_000), 255);
    assert_eq!(level_of_xp(25_500_000_000), 256);
    assert_eq!(next_level(1, 350_000_000), 4);
    assert_eq!(next_level(9, 350_000_000), 9);
    assert_eq!(next_level(3, 25_500_000_000), 255);
}

#[test]
fn account_space_formula() {
    assert_eq!(account_space(0), 54);
    assert_eq!(account_space(6), 60);
}

#[test]
fn keys_compare_by_bytes() {
    let mut other = ALICE;
    assert!(same_key(&ALICE, &other));
    other[31] = 9;
    assert!(!same_key(&ALICE, &other));
    assert_eq!(DemonStore::new(PROGRAM).program_id(), PROGRAM);
}

#[test]
fn spawn_at_given_derivation() {
    let mut store = DemonStore::new(PROGRAM);
    let accounts = SpawnDemon { demon: [3; 32], user: ALICE, user_lamports: 10, rent: 10 };
    assert_eq!(spawn_demon_at(&mut store, &accounts, "Mammon".to_string(), None), Err(DemonError::AddressMismatch));
    assert_eq!(
        spawn_demon_at(&mut store, &accounts, "Mammon".to_string(), Some(([4; 32], 250))),
        Err(DemonError::AddressMismatch)
    );
    assert_eq!(spawn_demon_at(&mut store, &accounts, "Mammon".to_string(), Some(([3; 32], 250))), Ok(()));
    let acct = store.get(&[3; 32]).unwrap();
    assert_eq!(acct.demon.bump, 250);
    assert_eq!(acct.demon.owner, ALICE);
    assert_eq!(acct.lamports, 10);
    assert_eq!(
        spawn_demon_at(&mut store, &accounts, "Mammon".to_string(), Some(([3; 32], 250))),
        Err(DemonError::AlreadyInitialized)
    );
}

#[test]
fn record_gains_xp_and_levels() {
    let mut demon = Demon::spawn(ALICE, "Asmodeus".to_string(), 253);
    assert_eq!((demon.level, demon.xp, demon.bump), (1, 0, 253));
    assert_eq!(demon.gain_xp(250_000_000), Ok(()));
    assert_eq!((demon.level, demon.xp), (3, 250_000_000));
    assert_eq!(demon.gain_xp(u64::MAX), Err(DemonError::Overflow));
    assert_eq!((demon.level, demon.xp), (3, 250_000_000));
    assert_eq!(demon.name, "Asmodeus");
}
