//! What a peer asked to be told about: which block and transaction
//! announcements it wants, and an optional transaction filter by sender
//! address or minimum fee per byte.

use vstd::prelude::*;
use crate::transaction::{Address, Coin, Transaction};

verus! {

/// How much of a class of announcements a peer wants: nothing, bare
/// hashes, or full objects.
#[derive(Clone, Copy, Debug, PartialEq, Eq, Structural)]
pub enum SubscriptionType {
    Nothing,
    Hashes,
    Objects,
}

/// Which transactions a subscribed peer wants: those from a set of sender
/// addresses, or those paying at least a fee per byte.
#[derive(Clone, Debug)]
pub enum TransactionFilter {
    Addresses(Vec<Address>),
    MinFee(Coin),
}

/// One peer's announcement wishes.
#[derive(Clone, Debug)]
pub struct Subscription {
    pub tx_announcements: SubscriptionType,
    pub tx_filter: Option<TransactionFilter>,
    pub block_announcements: SubscriptionType,
}

impl Default for Subscription {
    /// A fresh peer has asked for nothing.
    fn default() -> (r: Subscription)
        ensures
            r.tx_announcements matches SubscriptionType::Nothing,
            r.tx_filter is None,
            r.block_announcements matches SubscriptionType::Nothing,
    {
        Subscription {
            tx_announcements: SubscriptionType::Nothing,
            tx_filter: None,
            block_announcements: SubscriptionType::Nothing,
        }
    }
}

/// Whether the filter lets a transaction through: an address filter wants
/// the sender listed; a minimum-fee filter wants the fee to reach the
/// per-byte minimum times the wire size, and lets everything through when
/// that product would overflow.
pub open spec fn filter_admits(filter: Option<TransactionFilter>, tx: Transaction) -> bool {
    match filter {
        Option::None => true,
        Option::Some(TransactionFilter::Addresses(addresses)) => exists|i: int|
            0 <= i < addresses@.len() && (#[trigger] addresses@[i])@ == tx.sender@,
        Option::Some(TransactionFilter::MinFee(min_fee)) => {
            if min_fee.0 * tx.serialized_size <= u64::MAX {
                tx.fee.0 >= min_fee.0 * tx.serialized_size
            } else {
                true
            }
        },
    }
}

/// Whether the sender stands in the list of addresses.
fn list_names_sender(addresses: &Vec<Address>, sender: &Address) -> (r: bool)
    ensures
        r == exists|i: int|
            0 <= i < addresses@.len() && (#[trigger] addresses@[i])@ == sender@,
{
    let n = addresses.len();
    let mut i: usize = 0;
    while i < n
        invariant
            n == addresses@.len(),
            i <= n,
            forall|j: int| 0 <= j < i ==> (#[trigger] addresses@[j])@ != sender@,
        decreases n - i,
    {
        if addresses[i] == *sender {
            proof {
                assert((#[trigger] addresses@[i as int])@ == sender@);
            }
            return true;
        }
        i += 1;
    }
    false
}

impl Subscription {
    /// Whether this peer wants block announcements at all.
    pub open spec fn matches_block_spec(&self) -> bool {
        !(self.block_announcements matches SubscriptionType::Nothing)
    }

    pub fn matches_block(&self) -> (r: bool)
        ensures
            r == self.matches_block_spec(),
    {
        match self.block_announcements {
            SubscriptionType::Nothing => false,
            _ => true,
        }
    }

    /// Whether this peer wants the transaction announced: it subscribed to
    /// transactions at all, and its filter (if any) admits the transaction.
    pub open spec fn matches_transaction_spec(&self, transaction: Transaction) -> bool {
        &&& !(self.tx_announcements matches SubscriptionType::Nothing)
        &&& filter_admits(self.tx_filter, transaction)
    }

    pub fn matches_transaction(&self, transaction: &Transaction) -> (r: bool)
        ensures
            r == self.matches_transaction_spec(*transaction),
    {
        if let SubscriptionType::Nothing = self.tx_announcements {
            return false;
        }

        let current_filter = &self.tx_filter;
        match current_filter {
            None => true,
            Some(TransactionFilter::Addresses(addresses)) => {
                list_names_sender(addresses, &transaction.sender)
            },
            Some(TransactionFilter::MinFee(min_fee)) => {
                match min_fee.checked_mul(transaction.serialized_size) {
                    Some(block_fee) => transaction.fee.0 >= block_fee.0,
                    None => true,
                }
            },
        }
    }
}

} // verus!
