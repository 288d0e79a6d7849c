use geo_drop::engine::GeoDropContract;
use geo_drop::errors::Error;
use geo_drop::keys::DataKey;
use geo_drop::ledger::Ledger;

// Identities used throughout: the engine's custody account and three users.
const CUSTODY: u64 = 0;
const ALICE: u64 = 1;
const BOB: u64 = 2;
const CAROL: u64 = 3;

fn setup() -> (GeoDropContract, Ledger) {
    let mut ledger = Ledger::new(4);
    let mut engine = GeoDropContract::new(CUSTODY);
    assert_eq!(engine.initialize(7), Ok(()));
    assert!(ledger.mint(ALICE, 10000));
    (engine, ledger)
}

#[test]
fn test_create_and_claim_drop() {
    let (mut engine, mut ledger) = setup();

    let amount: i128 = 1000;
    let message = String::from("Test drop");
    let drop_id = engine
        .create_drop(&mut ledger, ALICE, amount, message, true)
        .unwrap();

    assert_eq!(drop_id, 1);
    assert_eq!(engine.get_drop_count(), 1);

    let drop = engine.get_drop(drop_id).unwrap();
    assert_eq!(drop.creator, ALICE);
    assert_eq!(drop.amount, amount);
    assert_eq!(drop.claimed, false);

    engine.claim_drop(&mut ledger, drop_id, BOB, true).unwrap();

    let drop = engine.get_drop(drop_id).unwrap();
    assert_eq!(drop.claimed, true);
    assert_eq!(drop.claimer, Some(BOB));
}

#[test]
fn test_cannot_claim_twice() {
    let (mut engine, mut ledger) = setup();

    let drop_id = engine
        .create_drop(&mut ledger, ALICE, 1000, String::from("Test"), true)
        .unwrap();

    assert_eq!(engine.claim_drop(&mut ledger, drop_id, BOB, true), Ok(()));
    assert_eq!(
        engine.claim_drop(&mut ledger, drop_id, CAROL, true),
        Err(Error::AlreadyClaimed)
    );
}

#[test]
fn happy_path_record_and_balances() {
    let (mut engine, mut ledger) = setup();

    let id = engine
        .create_drop(&mut ledger, ALICE, 1000, String::from("hi"), true)
        .unwrap();
    assert_eq!(id, 1);
    assert_eq!(engine.get_drop_count(), 1);

    let drop = engine.get_drop(1).unwrap();
    assert_eq!(drop.id, 1);
    assert_eq!(drop.creator, ALICE);
    assert_eq!(drop.amount, 1000);
    assert_eq!(drop.message, String::from("hi"));
    assert_eq!(drop.claimed, false);
    assert_eq!(drop.claimer, None);
    assert_eq!(ledger.balance_of(ALICE), 9000);
    assert_eq!(ledger.balance_of(CUSTODY), 1000);

    assert_eq!(engine.claim_drop(&mut ledger, 1, BOB, true), Ok(()));

    let drop = engine.get_drop(1).unwrap();
    assert_eq!(drop.claimed, true);
    assert_eq!(drop.claimer, Some(BOB));
    assert_eq!(ledger.balance_of(BOB), 1000);
    assert_eq!(ledger.balance_of(CUSTODY), 0);
}

#[test]
fn double_claim_changes_nothing() {
    let (mut engine, mut ledger) = setup();

    engine
        .create_drop(&mut ledger, ALICE, 1000, String::from("hi"), true)
        .unwrap();
    engine.claim_drop(&mut ledger, 1, BOB, true).unwrap();

    assert_eq!(
        engine.claim_drop(&mut ledger, 1, CAROL, true),
        Err(Error::AlreadyClaimed)
    );

    // The record still names the first claimer, and no balance moved.
    let drop = engine.get_drop(1).unwrap();
    assert_eq!(drop.claimed, true);
    assert_eq!(drop.claimer, Some(BOB));
    assert_eq!(ledger.balance_of(BOB), 1000);
    assert_eq!(ledger.balance_of(CAROL), 0);
    assert_eq!(ledger.balance_of(CUSTODY), 0);
}

#[test]
fn cancel_returns_funds_and_erases_record() {
    let (mut engine, mut ledger) = setup();

    engine
        .create_drop(&mut ledger, ALICE, 1000, String::from("hi"), true)
        .unwrap();
    let id = engine
        .create_drop(&mut ledger, ALICE, 500, String::from("m"), true)
        .unwrap();
    assert_eq!(id, 2);

    let alice_before = ledger.balance_of(ALICE);
    assert_eq!(engine.cancel_drop(&mut ledger, 2, ALICE, true), Ok(()));
    assert!(matches!(engine.get_drop(2), Err(Error::NotFound)));
    assert_eq!(ledger.balance_of(ALICE), alice_before + 500);
    // Cancellation never decrements the drop count.
    assert_eq!(engine.get_drop_count(), 2);
}

#[test]
fn cancelled_id_stays_dead() {
    let (mut engine, mut ledger) = setup();

    engine
        .create_drop(&mut ledger, ALICE, 500, String::from("m"), true)
        .unwrap();
    assert_eq!(engine.cancel_drop(&mut ledger, 1, ALICE, true), Ok(()));

    // No later operation resurrects or reuses the id.
    assert!(matches!(engine.get_drop(1), Err(Error::NotFound)));
    assert_eq!(
        engine.claim_drop(&mut ledger, 1, BOB, true),
        Err(Error::NotFound)
    );
    assert_eq!(
        engine.cancel_drop(&mut ledger, 1, ALICE, true),
        Err(Error::NotFound)
    );
    let fresh = engine
        .create_drop(&mut ledger, ALICE, 700, String::from("next"), true)
        .unwrap();
    assert_eq!(fresh, 2);
    assert!(matches!(engine.get_drop(1), Err(Error::NotFound)));
}

#[test]
fn only_creator_may_cancel() {
    let (mut engine, mut ledger) = setup();
    assert!(ledger.mint(BOB, 100));

    engine
        .create_drop(&mut ledger, ALICE, 1000, String::from("hi"), true)
        .unwrap();

    // Bob carries a valid authorization for himself, yet is not the creator.
    assert_eq!(
        engine.cancel_drop(&mut ledger, 1, BOB, true),
        Err(Error::NotCreator)
    );

    let drop = engine.get_drop(1).unwrap();
    assert_eq!(drop.claimed, false);
    assert_eq!(drop.creator, ALICE);
    assert_eq!(ledger.balance_of(CUSTODY), 1000);
    assert_eq!(ledger.balance_of(ALICE), 9000);
    assert_eq!(ledger.balance_of(BOB), 100);
}

#[test]
fn invalid_amount_is_rejected() {
    let (mut engine, mut ledger) = setup();

    assert_eq!(
        engine.create_drop(&mut ledger, ALICE, 0, String::from("m"), true),
        Err(Error::InvalidAmount)
    );
    assert_eq!(
        engine.create_drop(&mut ledger, ALICE, -5, String::from("m"), true),
        Err(Error::InvalidAmount)
    );
    assert_eq!(engine.get_drop_count(), 0);
    assert_eq!(ledger.balance_of(ALICE), 10000);
}

#[test]
fn create_increments_count_and_returns_it() {
    let (mut engine, mut ledger) = setup();

    assert_eq!(engine.get_drop_count(), 0);
    let first = engine
        .create_drop(&mut ledger, ALICE, 100, String::from("a"), true)
        .unwrap();
    assert_eq!(first, 1);
    assert_eq!(engine.get_drop_count(), 1);
    let second = engine
        .create_drop(&mut ledger, ALICE, 200, String::from("b"), true)
        .unwrap();
    assert_eq!(second, 2);
    assert_eq!(engine.get_drop_count(), 2);
}

#[test]
fn custody_balance_matches_unclaimed_deposits() {
    let (mut engine, mut ledger) = setup();

    // After every operation, custody holds exactly the sum of the unclaimed
    // deposits.
    assert_eq!(ledger.balance_of(CUSTODY), 0);
    engine
        .create_drop(&mut ledger, ALICE, 1000, String::from("a"), true)
        .unwrap();
    assert_eq!(ledger.balance_of(CUSTODY), 1000);
    engine
        .create_drop(&mut ledger, ALICE, 300, String::from("b"), true)
        .unwrap();
    assert_eq!(ledger.balance_of(CUSTODY), 1300);
    engine.claim_drop(&mut ledger, 1, BOB, true).unwrap();
    assert_eq!(ledger.balance_of(CUSTODY), 300);
    engine.cancel_drop(&mut ledger, 2, ALICE, true).unwrap();
    assert_eq!(ledger.balance_of(CUSTODY), 0);
}

#[test]
fn initialize_only_once() {
    let mut engine = GeoDropContract::new(CUSTODY);
    assert_eq!(engine.initialize(7), Ok(()));
    assert_eq!(engine.initialize(8), Err(Error::AlreadyInitialized));
    assert_eq!(engine.initialize(7), Err(Error::AlreadyInitialized));
}

#[test]
fn create_requires_initialization() {
    let mut ledger = Ledger::new(4);
    assert!(ledger.mint(ALICE, 10000));
    let mut engine = GeoDropContract::new(CUSTODY);
    assert_eq!(engine.get_drop_count(), 0);
    assert_eq!(
        engine.create_drop(&mut ledger, ALICE, 1000, String::from("hi"), true),
        Err(Error::NotInitialized)
    );
}

#[test]
fn missing_authorization_is_rejected() {
    let (mut engine, mut ledger) = setup();

    assert_eq!(
        engine.create_drop(&mut ledger, ALICE, 1000, String::from("hi"), false),
        Err(Error::Unauthorized)
    );
    engine
        .create_drop(&mut ledger, ALICE, 1000, String::from("hi"), true)
        .unwrap();
    assert_eq!(
        engine.claim_drop(&mut ledger, 1, BOB, false),
        Err(Error::Unauthorized)
    );
    assert_eq!(
        engine.cancel_drop(&mut ledger, 1, ALICE, false),
        Err(Error::Unauthorized)
    );
    let drop = engine.get_drop(1).unwrap();
    assert_eq!(drop.claimed, false);
}

#[test]
fn unknown_ids_report_not_found() {
    let (mut engine, mut ledger) = setup();

    assert!(matches!(engine.get_drop(0), Err(Error::NotFound)));
    assert!(matches!(engine.get_drop(1), Err(Error::NotFound)));
    assert_eq!(
        engine.claim_drop(&mut ledger, 1, BOB, true),
        Err(Error::NotFound)
    );
    assert_eq!(
        engine.cancel_drop(&mut ledger, 1, ALICE, true),
        Err(Error::NotFound)
    );
    engine
        .create_drop(&mut ledger, ALICE, 1000, String::from("hi"), true)
        .unwrap();
    assert!(matches!(engine.get_drop(2), Err(Error::NotFound)));
}

#[test]
fn insufficient_balance_fails_create() {
    let (mut engine, mut ledger) = setup();

    assert_eq!(
        engine.create_drop(&mut ledger, ALICE, 10001, String::from("hi"), true),
        Err(Error::TransferFailed)
    );
    assert_eq!(engine.get_drop_count(), 0);
    assert_eq!(ledger.balance_of(ALICE), 10000);

    // Bob holds nothing at all.
    assert_eq!(
        engine.create_drop(&mut ledger, BOB, 1, String::from("hi"), true),
        Err(Error::TransferFailed)
    );
}

#[test]
fn unknown_claimer_fails_transfer_and_keeps_drop() {
    let (mut engine, mut ledger) = setup();

    engine
        .create_drop(&mut ledger, ALICE, 1000, String::from("hi"), true)
        .unwrap();
    // Identity 9 is not an account of the ledger.
    assert_eq!(
        engine.claim_drop(&mut ledger, 1, 9, true),
        Err(Error::TransferFailed)
    );
    let drop = engine.get_drop(1).unwrap();
    assert_eq!(drop.claimed, false);
    assert_eq!(drop.claimer, None);
    assert_eq!(ledger.balance_of(CUSTODY), 1000);
}

#[test]
fn ledger_transfer_rules() {
    let mut ledger = Ledger::new(3);
    assert!(ledger.mint(1, 50));

    // Insufficient balance, negative amount, unknown accounts: all refused,
    // nothing moves.
    assert!(!ledger.transfer(1, 2, 51));
    assert!(!ledger.transfer(1, 2, -1));
    assert!(!ledger.transfer(1, 9, 10));
    assert!(!ledger.transfer(9, 1, 10));
    assert_eq!(ledger.balance_of(1), 50);
    assert_eq!(ledger.balance_of(2), 0);

    // A self-transfer is accepted and changes nothing.
    assert!(ledger.transfer(1, 1, 20));
    assert_eq!(ledger.balance_of(1), 50);

    assert!(ledger.transfer(1, 2, 20));
    assert_eq!(ledger.balance_of(1), 30);
    assert_eq!(ledger.balance_of(2), 20);

    // Unknown accounts hold nothing; minting for them is refused.
    assert_eq!(ledger.balance_of(9), 0);
    assert!(!ledger.mint(9, 10));
    assert!(!ledger.mint(1, -1));
}

#[test]
fn storage_keys_do_not_collide() {
    assert_eq!(DataKey::Drop(1), DataKey::Drop(1));
    assert_ne!(DataKey::Drop(1), DataKey::Drop(2));
    assert_ne!(DataKey::Drop(1), DataKey::DropCount);
    assert_ne!(DataKey::Drop(1), DataKey::Token);
    assert_ne!(DataKey::DropCount, DataKey::Token);
}

#[test]
fn message_is_kept_verbatim() {
    let (mut engine, mut ledger) = setup();

    engine
        .create_drop(&mut ledger, ALICE, 1, String::from("Test drop"), true)
        .unwrap();
    let drop = engine.get_drop(1).unwrap();
    assert_eq!(drop.message, String::from("Test drop"));

    // The message survives the claim untouched.
    engine.claim_drop(&mut ledger, 1, BOB, true).unwrap();
    let drop = engine.get_drop(1).unwrap();
    assert_eq!(drop.message, String::from("Test drop"));
}
