use token_backend::Identity;
use token_backend::Ledger;
use token_backend::LedgerError;
use token_backend::ledger::INITIAL_SUPPLY;

fn id(byte: u8) -> Identity {
    Identity::from_bytes(vec![byte])
}

fn initialized() -> (Ledger, Identity) {
    let issuer = id(1);
    let mut l = Ledger::default();
    l.init(&issuer);
    (l, issuer)
}

#[test]
fn metadata_defaults() {
    let l = Ledger::default();
    let m = l.get_metadata();
    assert_eq!(m.name, "Hero");
    assert_eq!(m.symbol, "HERO");
    assert_eq!(m.decimals, 8);
}

#[test]
fn init_credits_full_supply_to_deployer() {
    let (l, issuer) = initialized();
    assert_eq!(l.total_supply(), 100_000_000_000_000);
    assert_eq!(l.balance_of(&issuer), 100_000_000_000_000);
    assert_eq!(l.get_creator().as_bytes(), issuer.as_bytes());
}

#[test]
fn transfer_conserves_supply() {
    let (mut l, issuer) = initialized();
    let a = id(2);
    assert_eq!(l.transfer(&issuer, &a, 40), Ok(()));
    assert_eq!(l.balance_of(&issuer), 99_999_999_999_960);
    assert_eq!(l.balance_of(&a), 40);
    assert_eq!(l.total_supply(), 100_000_000_000_000);
}

#[test]
fn transfer_zero_is_noop() {
    let (mut l, issuer) = initialized();
    let a = id(2);
    assert_eq!(l.transfer(&issuer, &a, 0), Ok(()));
    assert_eq!(l.balance_of(&issuer), INITIAL_SUPPLY);
    assert_eq!(l.balance_of(&a), 0);
    assert_eq!(l.total_supply(), INITIAL_SUPPLY);
    // A zero transfer succeeds even from an empty account.
    let z = id(9);
    assert_eq!(l.transfer(&z, &a, 0), Ok(()));
    assert_eq!(l.balance_of(&a), 0);
}

#[test]
fn mint_zero_is_noop() {
    let (mut l, issuer) = initialized();
    let a = id(2);
    assert_eq!(l.mint(&issuer, &a, 0), Ok(()));
    assert_eq!(l.balance_of(&a), 0);
    assert_eq!(l.total_supply(), INITIAL_SUPPLY);
    // Even an unauthorized caller succeeds with a zero amount.
    assert_eq!(l.mint(&a, &a, 0), Ok(()));
    assert_eq!(l.balance_of(&a), 0);
    assert_eq!(l.total_supply(), INITIAL_SUPPLY);
}

#[test]
fn self_transfer_keeps_balance() {
    let (mut l, issuer) = initialized();
    assert_eq!(l.transfer(&issuer, &issuer, 1_000), Ok(()));
    assert_eq!(l.balance_of(&issuer), INITIAL_SUPPLY);
    assert_eq!(l.total_supply(), INITIAL_SUPPLY);
    // The full balance can move to oneself.
    assert_eq!(l.transfer(&issuer, &issuer, INITIAL_SUPPLY), Ok(()));
    assert_eq!(l.balance_of(&issuer), INITIAL_SUPPLY);
}

#[test]
fn insufficient_funds_rejected() {
    let (mut l, issuer) = initialized();
    let a = id(2);
    let b = id(3);
    assert_eq!(l.transfer(&issuer, &a, 40), Ok(()));
    // A holds 40; asking for 41 fails and changes nothing.
    assert_eq!(l.transfer(&a, &b, 41), Err(LedgerError::InsufficientBalance));
    assert_eq!(l.balance_of(&a), 40);
    assert_eq!(l.balance_of(&b), 0);
    assert_eq!(l.total_supply(), INITIAL_SUPPLY);
    // An empty account cannot send a positive amount at all.
    assert_eq!(l.transfer(&b, &a, 1), Err(LedgerError::InsufficientBalance));
    assert_eq!(l.balance_of(&a), 40);
    assert_eq!(l.balance_of(&b), 0);
}

#[test]
fn exact_balance_transfer_succeeds() {
    let (mut l, issuer) = initialized();
    let a = id(2);
    let b = id(3);
    assert_eq!(l.transfer(&issuer, &a, 40), Ok(()));
    assert_eq!(l.transfer(&a, &b, 40), Ok(()));
    assert_eq!(l.balance_of(&a), 0);
    assert_eq!(l.balance_of(&b), 40);
    assert_eq!(l.total_supply(), INITIAL_SUPPLY);
}

#[test]
fn mint_by_issuer_increases_balance_and_supply() {
    let (mut l, issuer) = initialized();
    let a = id(2);
    assert_eq!(l.mint(&issuer, &a, 500), Ok(()));
    assert_eq!(l.balance_of(&a), 500);
    assert_eq!(l.total_supply(), 100_000_000_000_500);
}

#[test]
fn mint_by_non_issuer_unauthorized() {
    let (mut l, issuer) = initialized();
    let a = id(2);
    assert_eq!(l.mint(&issuer, &a, 500), Ok(()));
    // The recipient itself may not mint.
    assert_eq!(l.mint(&a, &a, 500), Err(LedgerError::Unauthorized));
    assert_eq!(l.balance_of(&a), 500);
    assert_eq!(l.balance_of(&issuer), INITIAL_SUPPLY);
    assert_eq!(l.total_supply(), 100_000_000_000_500);
}

#[test]
fn unknown_owner_has_zero_balance() {
    let (mut l, issuer) = initialized();
    let a = id(2);
    let z = id(200);
    assert_eq!(l.balance_of(&z), 0);
    l.transfer(&issuer, &a, 40).unwrap();
    l.mint(&issuer, &a, 500).unwrap();
    assert_eq!(l.balance_of(&z), 0);
    // An identity with a longer byte form is just as unknown.
    let long = Identity::from_bytes(vec![7; 29]);
    assert_eq!(l.balance_of(&long), 0);
}

#[test]
fn mint_saturates_at_the_boundary() {
    let (mut l, issuer) = initialized();
    let a = id(2);
    assert_eq!(l.mint(&issuer, &a, u128::MAX), Ok(()));
    assert_eq!(l.total_supply(), u128::MAX);
    assert_eq!(l.balance_of(&a), u128::MAX);
}

#[test]
fn identity_equality_is_by_bytes() {
    let a = Identity::from_bytes(vec![1, 2, 3]);
    let b = Identity::from_bytes(vec![1, 2, 3]);
    let c = Identity::from_bytes(vec![1, 2]);
    let d = Identity::from_bytes(vec![1, 2, 4]);
    assert_eq!(a, b);
    assert_ne!(a, c);
    assert_ne!(a, d);
    assert_eq!(a.clone(), a);
    assert_eq!(Identity::anonymous().as_bytes(), &vec![4u8]);
}

#[test]
fn error_descriptions() {
    assert_eq!(
        LedgerError::InsufficientBalance.describe(),
        "Insufficient balance"
    );
    assert_eq!(
        LedgerError::Unauthorized.describe(),
        "Only the creator can mint tokens"
    );
}

#[test]
fn default_ledger_is_uninitialized() {
    let l = Ledger::default();
    assert_eq!(l.total_supply(), INITIAL_SUPPLY);
    assert_eq!(l.balance_of(&id(1)), 0);
    assert_eq!(l.get_creator().as_bytes(), Identity::anonymous().as_bytes());
}
