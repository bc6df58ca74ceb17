use nimiq_consensus::subscription::{Subscription, SubscriptionType, TransactionFilter};
use nimiq_consensus::transaction::{Address, Coin, Transaction};

fn tx(sender: u8, fee: u64, size: u64) -> Transaction {
    Transaction { sender: Address::new([sender; 20]), fee: Coin(fee), serialized_size: size }
}

#[test]
fn default_subscription_wants_nothing() {
    let s = Subscription::default();
    assert!(!s.matches_block());
    assert!(!s.matches_transaction(&tx(1, 100, 10)));
}

#[test]
fn any_block_subscription_matches_blocks() {
    let mut s = Subscription::default();
    s.block_announcements = SubscriptionType::Hashes;
    assert!(s.matches_block());
    s.block_announcements = SubscriptionType::Objects;
    assert!(s.matches_block());
}

#[test]
fn unfiltered_transaction_subscription_matches_everything() {
    let mut s = Subscription::default();
    s.tx_announcements = SubscriptionType::Objects;
    assert!(s.matches_transaction(&tx(1, 0, 1)));
}

#[test]
fn address_filter_matches_listed_senders_only() {
    let mut s = Subscription::default();
    s.tx_announcements = SubscriptionType::Hashes;
    s.tx_filter = Some(TransactionFilter::Addresses(vec![
        Address::new([1; 20]),
        Address::new([2; 20]),
    ]));
    assert!(s.matches_transaction(&tx(1, 100, 10)));
    assert!(s.matches_transaction(&tx(2, 100, 10)));
    assert!(!s.matches_transaction(&tx(3, 100, 10)));
}

#[test]
fn min_fee_filter_compares_fee_against_fee_per_byte_times_size() {
    let mut s = Subscription::default();
    s.tx_announcements = SubscriptionType::Hashes;
    s.tx_filter = Some(TransactionFilter::MinFee(Coin(3)));
    // 3 per byte times 100 bytes: 300 is the bar.
    assert!(s.matches_transaction(&tx(1, 300, 100)));
    assert!(s.matches_transaction(&tx(1, 301, 100)));
    assert!(!s.matches_transaction(&tx(1, 299, 100)));
}

#[test]
fn min_fee_filter_lets_everything_through_on_overflow() {
    let mut s = Subscription::default();
    s.tx_announcements = SubscriptionType::Hashes;
    s.tx_filter = Some(TransactionFilter::MinFee(Coin(u64::MAX)));
    // The per-byte minimum times the size overflows: the check is waived.
    assert!(s.matches_transaction(&tx(1, 0, 2)));
}

#[test]
fn coin_multiplication_reports_overflow() {
    assert_eq!(Coin(2).checked_mul(3), Some(Coin(6)));
    assert_eq!(Coin(u64::MAX).checked_mul(1), Some(Coin(u64::MAX)));
    assert_eq!(Coin(u64::MAX).checked_mul(2), None);
    assert_eq!(Coin(0).checked_mul(u64::MAX), Some(Coin(0)));
}
