use nimiq_consensus::agent::{ConsensusAgent, MessageDisposition, Peer};
use nimiq_consensus::distributor::MessageDistributor;
use nimiq_consensus::block::BlockComponents;
use nimiq_consensus::hashes::Blake2bHash;
use nimiq_consensus::messages::{
    GetBlocksDirection, GetBlocksMessage, Message, MessageType, Objects, RequestBlocksFilter,
    RequestResponse,
};
use nimiq_consensus::response::{PollOutcome, ResponseError};

fn peer(id: u64) -> Peer {
    Peer { id, full_node: true }
}

fn locator(seed: u8) -> Blake2bHash {
    Blake2bHash::new([seed; 32])
}

#[test]
fn consecutive_requests_get_increasing_identifiers() {
    let mut agent = ConsensusAgent::new(peer(1));
    let mut previous: Option<u32> = None;
    let mut seen: Vec<u32> = Vec::new();
    for _ in 0..5 {
        let sent = agent.request_blocks(vec![locator(1)], 10, RequestBlocksFilter::All);
        if let Some(p) = previous {
            assert!(sent.request_id > p, "identifiers must increase");
        }
        assert!(!seen.contains(&sent.request_id), "identifiers must be distinct");
        seen.push(sent.request_id);
        previous = Some(sent.request_id);
    }
    assert_eq!(seen, vec![0, 1, 2, 3, 4]);
}

#[test]
fn request_blocks_builds_the_wire_message() {
    let mut agent = ConsensusAgent::new(peer(3));
    let sent = agent.request_blocks(
        vec![locator(9), locator(8)],
        77,
        RequestBlocksFilter::MacroOnly,
    );
    assert_eq!(sent.peer_id, 3);
    assert_eq!(sent.request_id, 0);
    match sent.message {
        Message::RequestBlocks(rr) => {
            assert_eq!(rr.request_identifier, 0);
            assert_eq!(rr.msg.max_blocks, 77);
            assert_eq!(rr.msg.filter, RequestBlocksFilter::MacroOnly);
            assert_eq!(rr.msg.locators.len(), 2);
            assert!(rr.msg.locators[0] == locator(9));
            assert!(rr.msg.locators[1] == locator(8));
        }
        _ => panic!("request_blocks must produce a block request"),
    }
}

#[test]
fn reply_resolves_the_matching_request() {
    let mut agent = ConsensusAgent::new(peer(1));
    let sent = agent.request_blocks(vec![locator(1)], 100, RequestBlocksFilter::All);
    let payload: Objects<BlockComponents> = Objects::with_hashes(vec![locator(5)]);
    let resolved = agent.on_blocks(RequestResponse::new(payload, sent.request_id));
    let mut response = resolved.expect("a pending request must be resolved by its reply");
    match response.poll() {
        Ok(PollOutcome::Ready(Objects::Hashes(hashes))) => {
            assert_eq!(hashes.len(), 1);
            assert!(hashes[0] == locator(5));
        }
        _ => panic!("the reply's payload must come out of the response"),
    }
}

#[test]
fn unknown_reply_is_dropped() {
    let mut agent = ConsensusAgent::new(peer(1));
    let _ = agent.request_blocks(vec![locator(1)], 100, RequestBlocksFilter::All);
    let payload: Objects<BlockComponents> = Objects::with_hashes(vec![]);
    // No request 999 is pending: the reply vanishes without a trace.
    assert!(agent.on_blocks(RequestResponse::new(payload, 999)).is_none());
}

#[test]
fn timeout_resolves_with_a_timeout_error() {
    let mut agent = ConsensusAgent::new(peer(1));
    let sent = agent.request_blocks(vec![locator(1)], 100, RequestBlocksFilter::All);
    let mut response = agent
        .on_timeout(sent.request_id)
        .expect("a fired timeout must resolve its pending request");
    assert!(matches!(response.poll(), Err(ResponseError::Timeout)));
    // The entry is gone: a late reply for the same identifier is dropped.
    let payload: Objects<BlockComponents> = Objects::with_hashes(vec![]);
    assert!(agent.on_blocks(RequestResponse::new(payload, sent.request_id)).is_none());
}

#[test]
fn block_replies_are_intercepted_and_other_messages_distributed() {
    let mut agent = ConsensusAgent::new(peer(1));
    let sink = agent.msg_distributor.subscribe(&vec![MessageType::GetBlocks]);

    let sent = agent.request_blocks(vec![locator(1)], 100, RequestBlocksFilter::All);
    let payload: Objects<BlockComponents> = Objects::with_hashes(vec![]);
    let reply = Message::Blocks(Box::new(RequestResponse::new(payload, sent.request_id)));
    match agent.on_message(reply) {
        MessageDisposition::BlockReply(Some(_)) => {}
        _ => panic!("a block reply must be matched to its pending request"),
    }

    let other = GetBlocksMessage::new(vec![locator(2)], 16, GetBlocksDirection::Forward);
    match agent.on_message(other) {
        MessageDisposition::Distribute(Message::GetBlocks(m), plan) => {
            assert_eq!(m.max_inv_size, 16);
            assert_eq!(plan, vec![sink]);
        }
        _ => panic!("a non-reply message must go to the fan-out table"),
    }
}

#[test]
fn distributor_routes_by_kind_and_drops_failed_sinks() {
    let mut d = MessageDistributor::new();
    let a = d.subscribe(&vec![MessageType::GetBlocks]);
    let b = d.subscribe(&vec![MessageType::GetBlocks, MessageType::Blocks]);

    let msg = GetBlocksMessage::new(vec![], 1, GetBlocksDirection::Backward);
    assert_eq!(d.notify(&msg), vec![a, b]);

    // The first sink's delivery failed: it leaves the table.
    d.notify_and_cleanup(MessageType::GetBlocks, &vec![true, false]);
    assert_eq!(d.notify(&msg), vec![b]);
}

#[test]
fn a_sink_naming_a_kind_twice_is_delivered_to_twice() {
    let mut d = MessageDistributor::new();
    let a = d.subscribe(&vec![MessageType::GetBlocks, MessageType::GetBlocks]);
    let msg = GetBlocksMessage::new(vec![], 1, GetBlocksDirection::Forward);
    assert_eq!(d.notify(&msg), vec![a, a]);
    // Dropping the first occurrence leaves the second.
    d.notify_and_cleanup(MessageType::GetBlocks, &vec![true, false]);
    assert_eq!(d.notify(&msg), vec![a]);
}

#[test]
fn a_wrapped_counter_never_displaces_a_pending_slot_unresolved() {
    let mut agent = ConsensusAgent::new(peer(1));
    let first = agent.request_blocks(vec![locator(1)], 100, RequestBlocksFilter::All);
    assert!(first.displaced.is_none());

    // Wind the counter around to the identifier of the still-pending
    // request: the stale slot comes back resolved, never dropped pending.
    agent.state.current_request_identifier = first.request_id;
    let second = agent.request_blocks(vec![locator(2)], 100, RequestBlocksFilter::All);
    assert_eq!(second.request_id, first.request_id);
    let mut stale = second.displaced.expect("the displaced slot is handed back");
    assert!(matches!(stale.poll(), Err(ResponseError::Timeout)));

    // The fresh slot under the reused identifier still works.
    let payload: Objects<BlockComponents> = Objects::with_hashes(vec![]);
    assert!(agent.on_blocks(RequestResponse::new(payload, second.request_id)).is_some());
}

#[test]
fn teardown_resolves_every_outstanding_request() {
    let mut agent = ConsensusAgent::new(peer(1));
    let _ = agent.request_blocks(vec![locator(1)], 100, RequestBlocksFilter::All);
    let _ = agent.request_blocks(vec![locator(2)], 100, RequestBlocksFilter::All);
    let cancelled = agent.teardown();
    assert_eq!(cancelled.len(), 2);
    for mut response in cancelled {
        assert!(matches!(response.poll(), Err(ResponseError::Timeout)));
    }
}
