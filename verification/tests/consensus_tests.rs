use nimiq_consensus::agent::{MessageDisposition, Peer};
use nimiq_consensus::block::{Block, BlockComponents};
use nimiq_consensus::consensus::{
    BlockchainEvent, Consensus, ConsensusEvent, MempoolEvent, MempoolRelay, NetworkEvent,
    SyncTrigger,
};
use nimiq_consensus::hashes::Blake2bHash;
use nimiq_consensus::messages::{
    GetBlocksDirection, GetBlocksMessage, Message, Objects, RequestResponse,
};
use nimiq_consensus::response::ResponseError;
use nimiq_consensus::transaction::{Address, Coin, Transaction};

fn peer(id: u64) -> Peer {
    Peer { id, full_node: true }
}

fn hash(seed: u8) -> Blake2bHash {
    Blake2bHash::new([seed; 32])
}

fn transaction(seed: u8) -> Transaction {
    Transaction { sender: Address::new([seed; 20]), fee: Coin(10), serialized_size: 100 }
}

fn establish(c: &mut Consensus) {
    let out = c.perform_sync(vec![hash(0)]);
    assert!(out.events.contains(&ConsensusEvent::Established));
}

fn mark_synced(c: &mut Consensus, id: u64) {
    let index = c.state.agents.find_key_index(id).expect("registered");
    c.state.agents.value_at_mut(index).set_synced(true);
}

#[test]
fn registry_tracks_joins_and_leaves() {
    let mut c = Consensus::new(0);
    assert_eq!(c.state.agents.len(), 0);
    c.on_peer_joined(peer(1));
    c.on_peer_joined(peer(2));
    assert_eq!(c.state.agents.len(), 2);
    // A second join of a connected peer replaces its agent, never
    // duplicating the entry.
    c.on_peer_joined(peer(1));
    assert_eq!(c.state.agents.len(), 2);
    let _ = c.on_peer_left(peer(1));
    assert_eq!(c.state.agents.len(), 1);
    assert!(!c.state.agents.contains_key(1));
    assert!(c.state.agents.contains_key(2));
    // Leaving twice is harmless.
    let _ = c.on_peer_left(peer(1));
    assert_eq!(c.state.agents.len(), 1);
    c.on_peer_joined(peer(3));
    let _ = c.on_peer_left(peer(2));
    assert_eq!(c.state.agents.len(), 1);
    assert!(c.state.agents.contains_key(3));
}

#[test]
fn departing_peer_leaves_no_request_pending() {
    let mut c = Consensus::new(0);
    c.on_peer_joined(peer(1));
    // The sync pass sends the peer one block request, which stays
    // outstanding.
    let out = c.perform_sync(vec![hash(0)]);
    assert!(out.request.is_some());

    // The peer leaves while the request is outstanding: its agent is gone
    // and the response reaches a terminal error instead of pending forever.
    let cancelled = c.on_peer_left(peer(1));
    assert!(!c.state.agents.contains_key(1));
    assert_eq!(cancelled.len(), 1);
    let mut response = cancelled.into_iter().next().unwrap();
    assert!(matches!(response.poll(), Err(ResponseError::Timeout)));
}

#[test]
fn network_events_trigger_the_right_sync_pass() {
    let mut c = Consensus::new(0);
    let (trigger, cancelled) = c.handle_network_event(NetworkEvent::PeerJoined(peer(1)));
    assert_eq!(trigger, SyncTrigger::Throttled);
    assert!(cancelled.is_empty());
    let (trigger, _) = c.handle_network_event(NetworkEvent::PeerLeft(peer(1)));
    assert_eq!(trigger, SyncTrigger::Immediate);
    assert_eq!(c.state.agents.len(), 0);
}

#[test]
fn blocks_are_relayed_only_once_established() {
    let mut c = Consensus::new(0);
    c.on_peer_joined(peer(1));
    mark_synced(&mut c, 1);

    let head = Block { hash: hash(7) };
    let event = BlockchainEvent::Extended(hash(7));
    // Not yet established: nothing is announced.
    assert!(c.on_blockchain_event(&event, &head).is_empty());

    establish(&mut c);
    let relay = c.on_blockchain_event(&event, &head);
    assert_eq!(relay.len(), 1);
    assert_eq!(relay[0].0, 1);
    assert!(relay[0].1.hash == hash(7));
}

#[test]
fn a_rebranch_relays_every_adopted_block_in_order() {
    let mut c = Consensus::new(0);
    c.on_peer_joined(peer(1));
    c.on_peer_joined(peer(2));
    mark_synced(&mut c, 1);
    mark_synced(&mut c, 2);
    establish(&mut c);

    let reverted = vec![(hash(1), Block { hash: hash(1) })];
    let adopted = vec![(hash(2), Block { hash: hash(2) }), (hash(3), Block { hash: hash(3) })];
    let event = BlockchainEvent::Rebranched(reverted, adopted);
    let head = Block { hash: hash(3) };
    let relay = c.on_blockchain_event(&event, &head);
    // Every agent, in registry order, gets the adopted blocks in branch order.
    assert_eq!(relay.len(), 4);
    assert_eq!(relay[0].0, 1);
    assert!(relay[0].1.hash == hash(2));
    assert!(relay[1].1.hash == hash(3));
    assert_eq!(relay[2].0, 2);
    assert!(relay[2].1.hash == hash(2));
    assert!(relay[3].1.hash == hash(3));
}

#[test]
fn transactions_are_announced_and_retracted_only_once_established() {
    let mut c = Consensus::new(0);
    c.on_peer_joined(peer(1));
    mark_synced(&mut c, 1);

    let tx = transaction(5);
    // Not established: neither announcement nor retraction goes out.
    assert!(c.on_transaction_added(&tx).is_empty());
    assert!(c.on_transaction_removed(&tx).is_empty());

    establish(&mut c);
    let announced = c.on_transaction_added(&tx);
    assert_eq!(announced.len(), 1);
    assert_eq!(announced[0].0, 1);
    assert!(announced[0].1.sender == Address::new([5; 20]));
    let retracted = c.on_transaction_removed(&tx);
    assert_eq!(retracted.len(), 1);
    assert_eq!(retracted[0].0, 1);
}

#[test]
fn mempool_events_map_to_announce_and_retract() {
    let mut c = Consensus::new(0);
    c.on_peer_joined(peer(1));
    mark_synced(&mut c, 1);
    establish(&mut c);

    let tx = transaction(1);
    match c.handle_mempool_event(&MempoolEvent::TransactionAdded(hash(1), tx)) {
        MempoolRelay::Announce(plan) => assert_eq!(plan.len(), 1),
        _ => panic!("an added transaction is announced"),
    }
    match c.handle_mempool_event(&MempoolEvent::TransactionRestored(tx)) {
        MempoolRelay::Announce(plan) => assert_eq!(plan.len(), 1),
        _ => panic!("a restored transaction is announced"),
    }
    match c.handle_mempool_event(&MempoolEvent::TransactionEvicted(tx)) {
        MempoolRelay::Retract(plan) => assert_eq!(plan.len(), 1),
        _ => panic!("an evicted transaction is retracted"),
    }
    match c.handle_mempool_event(&MempoolEvent::TransactionMined(tx)) {
        MempoolRelay::Retract(plan) => assert_eq!(plan.len(), 1),
        _ => panic!("a mined transaction is retracted"),
    }
}

#[test]
fn inbound_messages_are_routed_to_the_right_agent() {
    let mut c = Consensus::new(0);
    c.on_peer_joined(peer(1));
    let out = c.perform_sync(vec![hash(0)]);
    let sent = out.request.expect("one request goes out");

    // A reply from a peer that was never registered is dropped.
    let payload: Objects<BlockComponents> = Objects::with_hashes(vec![]);
    assert!(c
        .on_message(99, Message::Blocks(Box::new(RequestResponse::new(payload, 0))))
        .is_none());

    // The right peer's reply resolves the pending request.
    let payload: Objects<BlockComponents> = Objects::with_hashes(vec![hash(4)]);
    match c.on_message(
        sent.peer_id,
        Message::Blocks(Box::new(RequestResponse::new(payload, sent.request_id))),
    ) {
        Some(MessageDisposition::BlockReply(Some(_))) => {}
        _ => panic!("the reply must resolve the pending request"),
    }

    // Any other message goes to the fan-out table (no subscribers here).
    let other = GetBlocksMessage::new(vec![hash(1)], 8, GetBlocksDirection::Forward);
    match c.on_message(sent.peer_id, other) {
        Some(MessageDisposition::Distribute(Message::GetBlocks(_), plan)) => {
            assert!(plan.is_empty());
        }
        _ => panic!("a non-reply message is distributed"),
    }
}

#[test]
fn a_request_timeout_resolves_and_an_orphaned_timer_is_a_no_op() {
    let mut c = Consensus::new(0);
    c.on_peer_joined(peer(1));
    let out = c.perform_sync(vec![hash(0)]);
    let sent = out.request.unwrap();

    let mut response = c
        .on_request_timeout(sent.peer_id, sent.request_id)
        .expect("the agent is present")
        .expect("the request was pending");
    assert!(matches!(response.poll(), Err(ResponseError::Timeout)));

    // The same timer firing again finds nothing pending.
    assert!(c.on_request_timeout(sent.peer_id, sent.request_id).unwrap().is_none());

    // A timer that outlived its peer's agent is a no-op.
    let _ = c.on_peer_left(peer(1));
    assert!(c.on_request_timeout(sent.peer_id, sent.request_id).is_none());
}
