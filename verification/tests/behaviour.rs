use atomic_swap::account::{hash_bytes_equal, AccountHash, ContractHash, Key};
use atomic_swap::amount::Amount;
use atomic_swap::entry::{entry_points, Access, EntryKind, EntryPoint, ValueType};
use atomic_swap::error::Error;
use atomic_swap::hash::hash_secret;
use atomic_swap::helper::{is_time_out, transfer_to};
use atomic_swap::swap::Swap;
use atomic_swap::validator::{caller_is_owner, caller_is_recipient};

const WOW_HASH: &str = "64eeb8567ad496f244c24c274bb1c2f12e4b32f933bab58a456cb5a5864dc58d";

fn owner() -> AccountHash {
    AccountHash { bytes: [6u8; 32] }
}

fn recipient() -> AccountHash {
    AccountHash { bytes: [9u8; 32] }
}

fn stranger() -> AccountHash {
    AccountHash { bytes: [1u8; 32] }
}

fn token() -> ContractHash {
    ContractHash { bytes: [3u8; 32] }
}

fn amount(v: u128) -> Amount {
    Amount { high: 0, low: v }
}

/// Starts at block time 1000, ends at 1050, locks 10 tokens behind "wow".
fn new_swap() -> Swap {
    Swap::install(owner(), 1_000, 50, recipient(), hash_secret("wow"), amount(10), token())
}

fn paid_to(key: &Key) -> AccountHash {
    match key {
        Key::Account(a) => *a,
        Key::Hash(_) => panic!("paid to a contract"),
    }
}

#[test]
fn hash_of_known_inputs() {
    assert_eq!(hash_secret(""), "c5d2460186f7233c927e7db2dcc703c0e500b653ca82273b7bfad8045d85a470");
    assert_eq!(hash_secret("abc"), "4e03657aea45a94fc7d47ba826c8d667c0d1e6e33a64a036ec44f58fa12d6c45");
    assert_eq!(hash_secret("wow"), WOW_HASH);
    for secret in ["", "wow", "a longer secret, with ünïcode"] {
        let h = hash_secret(secret);
        assert_eq!(h.chars().count(), 64);
        assert!(h.chars().all(|c| ('0'..='9').contains(&c) || ('a'..='f').contains(&c)));
    }
}

#[test]
fn install_sets_terms() {
    let swap = new_swap();
    assert_eq!(swap.secret, "");
    assert_eq!(swap.hash, WOW_HASH);
    assert_eq!(swap.owner.bytes, owner().bytes);
    assert_eq!(swap.recipient.bytes, recipient().bytes);
    assert_eq!(swap.start, 1_000);
    assert_eq!(swap.end, 1_050);
    assert_eq!(swap.amount.low, 10);
    assert_eq!(swap.amount.high, 0);
}

#[test]
fn install_at_the_largest_deadline() {
    let swap = Swap::install(owner(), u64::MAX - 5, 5, recipient(), hash_secret("wow"), amount(1), token());
    assert_eq!(swap.end, u64::MAX);
}

#[test]
fn funding_needs_the_whole_amount() {
    let swap = new_swap();
    assert_eq!(swap.finish_setup(&amount(9), [7u8; 32]).unwrap_err(), Error::NotEnoughBalance);
    let deposit = swap.finish_setup(&amount(10), [7u8; 32]).unwrap();
    assert_eq!(deposit.amount.low, 10);
    assert_eq!(deposit.token.bytes, token().bytes);
    match deposit.to {
        Key::Hash(h) => assert_eq!(h, [7u8; 32]),
        Key::Account(_) => panic!("deposit to an account"),
    }
}

#[test]
fn funding_compares_all_256_bits() {
    let big = Swap::install(
        owner(),
        0,
        1,
        recipient(),
        hash_secret("wow"),
        Amount { high: 1, low: 0 },
        token(),
    );
    assert_eq!(big.finish_setup(&Amount { high: 0, low: u128::MAX }, [0u8; 32]).unwrap_err(), Error::NotEnoughBalance);
    assert!(big.finish_setup(&Amount { high: 1, low: 0 }, [0u8; 32]).is_ok());
    assert!(big.finish_setup(&Amount { high: 2, low: 0 }, [0u8; 32]).is_ok());
}

#[test]
fn amount_order() {
    assert!(Amount { high: 0, low: 5 }.is_less_than(&Amount { high: 0, low: 6 }));
    assert!(!Amount { high: 0, low: 6 }.is_less_than(&Amount { high: 0, low: 6 }));
    assert!(Amount { high: 0, low: u128::MAX }.is_less_than(&Amount { high: 1, low: 0 }));
    assert!(!Amount { high: 1, low: 0 }.is_less_than(&Amount { high: 0, low: u128::MAX }));
    assert_eq!(Amount::zero().low, 0);
    assert_eq!(Amount::zero().high, 0);
}

#[test]
fn withdraw_by_stranger_with_secret_is_refused() {
    let mut swap = new_swap();
    assert_eq!(swap.withdraw(&stranger(), 1_010, "wow".to_string()).unwrap_err(), Error::InValidCaller);
    assert_eq!(swap.withdraw(&owner(), 1_010, "wow".to_string()).unwrap_err(), Error::InValidCaller);
    assert_eq!(swap.amount.low, 10);
    assert_eq!(swap.secret, "");
}

#[test]
fn withdraw_with_wrong_secret_is_refused() {
    let mut swap = new_swap();
    assert_eq!(swap.withdraw(&recipient(), 1_010, "wrong".to_string()).unwrap_err(), Error::InValidSecret);
    assert_eq!(swap.amount.low, 10);
    assert_eq!(swap.secret, "");
}

#[test]
fn withdraw_after_deadline_is_refused() {
    let mut swap = new_swap();
    assert_eq!(swap.withdraw(&recipient(), 1_051, "wow".to_string()).unwrap_err(), Error::TimeOut);
    assert_eq!(swap.amount.low, 10);
}

#[test]
fn withdraw_checks_caller_before_time_and_time_before_secret() {
    let mut swap = new_swap();
    assert_eq!(swap.withdraw(&stranger(), 2_000, "wrong".to_string()).unwrap_err(), Error::InValidCaller);
    assert_eq!(swap.withdraw(&recipient(), 2_000, "wrong".to_string()).unwrap_err(), Error::TimeOut);
}

#[test]
fn withdraw_at_the_deadline_pays_recipient_and_reveals_secret() {
    let mut swap = new_swap();
    let paid = swap.withdraw(&recipient(), 1_050, "wow".to_string()).unwrap();
    assert_eq!(paid_to(&paid.to).bytes, recipient().bytes);
    assert_eq!(paid.amount.low, 10);
    assert_eq!(paid.token.bytes, token().bytes);
    assert_eq!(swap.amount.low, 0);
    assert_eq!(swap.secret, "wow");
    assert_eq!(hash_secret(&swap.secret), swap.hash);
}

#[test]
fn refund_before_or_at_deadline_is_refused() {
    let mut swap = new_swap();
    assert_eq!(swap.refund(&owner(), 1_000).unwrap_err(), Error::TimeUnOut);
    assert_eq!(swap.refund(&owner(), 1_050).unwrap_err(), Error::TimeUnOut);
    assert_eq!(swap.amount.low, 10);
}

#[test]
fn refund_by_other_than_owner_is_refused() {
    let mut swap = new_swap();
    assert_eq!(swap.refund(&recipient(), 1_051).unwrap_err(), Error::InValidCaller);
    assert_eq!(swap.refund(&stranger(), 1_051).unwrap_err(), Error::InValidCaller);
    assert_eq!(swap.amount.low, 10);
}

#[test]
fn refund_after_deadline_pays_owner() {
    let mut swap = new_swap();
    let paid = swap.refund(&owner(), 1_051).unwrap();
    assert_eq!(paid_to(&paid.to).bytes, owner().bytes);
    assert_eq!(paid.amount.low, 10);
    assert_eq!(swap.amount.low, 0);
}

#[test]
fn deadline_separates_withdraw_and_refund() {
    for now in [1_000u64, 1_049, 1_050, 1_051, 5_000] {
        let mut for_withdraw = new_swap();
        let mut for_refund = new_swap();
        let w = for_withdraw.withdraw(&recipient(), now, "wow".to_string()).is_ok();
        let r = for_refund.refund(&owner(), now).is_ok();
        assert!(!(w && r));
        assert!(w || r);
    }
}

#[test]
fn tokens_are_paid_out_once() {
    let mut swap = new_swap();
    let first = swap.withdraw(&recipient(), 1_010, "wow".to_string()).unwrap();
    let second = swap.withdraw(&recipient(), 1_020, "wow".to_string()).unwrap();
    let third = swap.refund(&owner(), 1_051).unwrap();
    assert_eq!(first.amount.low, 10);
    assert_eq!(second.amount.low, 0);
    assert_eq!(third.amount.low, 0);
    assert_eq!(swap.amount.low, 0);
}

#[test]
fn update_hash_is_for_the_owner_only() {
    let mut swap = new_swap();
    assert_eq!(swap.update_hash(&recipient(), hash_secret("other")).unwrap_err(), Error::InValidCaller);
    assert_eq!(swap.hash, WOW_HASH);
    assert!(swap.update_hash(&owner(), hash_secret("other")).is_ok());
    assert_eq!(swap.hash, hash_secret("other"));
    assert_eq!(swap.withdraw(&recipient(), 1_010, "wow".to_string()).unwrap_err(), Error::InValidSecret);
    assert!(swap.withdraw(&recipient(), 1_010, "other".to_string()).is_ok());
    assert_eq!(swap.end, 1_050);
    assert_eq!(swap.owner.bytes, owner().bytes);
}

#[test]
fn callers_are_compared_byte_by_byte() {
    let swap = new_swap();
    assert!(caller_is_owner(&swap, &owner()));
    assert!(!caller_is_owner(&swap, &recipient()));
    assert!(caller_is_recipient(&swap, &recipient()));
    assert!(!caller_is_recipient(&swap, &owner()));
    let mut last_differs = [6u8; 32];
    last_differs[31] = 7;
    assert!(!caller_is_owner(&swap, &AccountHash { bytes: last_differs }));
    assert!(hash_bytes_equal(&[4u8; 32], &[4u8; 32]));
    assert!(!hash_bytes_equal(&[4u8; 32], &last_differs));
}

#[test]
fn time_out_is_strictly_after_end() {
    assert!(!is_time_out(50, 50));
    assert!(is_time_out(51, 50));
    assert!(!is_time_out(0, u64::MAX));
}

#[test]
fn transfer_uses_the_swap_token() {
    let swap = new_swap();
    let t = transfer_to(&swap, Key::Account(stranger()), amount(3));
    assert_eq!(t.token.bytes, token().bytes);
    assert_eq!(paid_to(&t.to).bytes, stranger().bytes);
    assert_eq!(t.amount.low, 3);
}

#[test]
fn error_codes() {
    assert_eq!(Error::InValidCaller.code(), 0);
    assert_eq!(Error::InValidSecret.code(), 1);
    assert_eq!(Error::NotEnoughBalance.code(), 2);
    assert_eq!(Error::TimeOut.code(), 3);
    assert_eq!(Error::TimeUnOut.code(), 4);
    assert_eq!(Error::InValidCaller.api_error_code(), 65_536);
    assert_eq!(Error::TimeUnOut.api_error_code(), 65_540);
}

#[test]
fn entry_point_table() {
    let entries = entry_points();
    assert_eq!(entries, vec![EntryPoint::UpdateHash, EntryPoint::Refund, EntryPoint::Withdraw]);
    assert_eq!(EntryPoint::UpdateHash.name(), "update_hash");
    assert_eq!(EntryPoint::UpdateHash.argument(), Some(("hash", ValueType::String)));
    assert_eq!(EntryPoint::Refund.name(), "refund");
    assert_eq!(EntryPoint::Refund.argument(), None);
    assert_eq!(EntryPoint::Withdraw.name(), "withdraw");
    assert_eq!(EntryPoint::Withdraw.argument(), Some(("secret", ValueType::String)));
    for entry in entries {
        assert_eq!(entry.return_type(), ValueType::Unit);
        assert_eq!(entry.access(), Access::Public);
        assert_eq!(entry.kind(), EntryKind::Contract);
    }
}

#[test]
fn authorization_comes_before_the_argument() {
    let swap = new_swap();
    assert_eq!(swap.authorize_withdraw(&stranger(), 1_010).unwrap_err(), Error::InValidCaller);
    assert_eq!(swap.authorize_withdraw(&recipient(), 1_051).unwrap_err(), Error::TimeOut);
    assert!(swap.authorize_withdraw(&recipient(), 1_050).is_ok());
    assert_eq!(swap.authorize_update_hash(&recipient()).unwrap_err(), Error::InValidCaller);
    assert!(swap.authorize_update_hash(&owner()).is_ok());
}
