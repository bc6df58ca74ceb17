use nimiq_consensus::agent::Peer;
use nimiq_consensus::block::{Block, BlockComponents};
use nimiq_consensus::consensus::{Consensus, ConsensusEvent};
use nimiq_consensus::hashes::Blake2bHash;
use nimiq_consensus::messages::{Message, Objects, RequestBlocksFilter};
use nimiq_consensus::response::ResponseError;
use nimiq_consensus::sync::{SyncError, SyncProtocol};

fn join(c: &mut Consensus, id: u64, full_node: bool) {
    c.on_peer_joined(Peer { id, full_node });
}

fn mark_synced(c: &mut Consensus, id: u64) {
    let index = c
        .state
        .agents
        .find_key_index(id)
        .expect("the peer must be registered");
    c.state.agents.value_at_mut(index).set_synced(true);
}

fn locators() -> Vec<Blake2bHash> {
    vec![Blake2bHash::new([1; 32])]
}

#[test]
fn established_immediately_with_no_peers_and_no_quorum_requirement() {
    // A quorum threshold of zero and an empty registry: nothing to sync,
    // quorum trivially met.
    let mut c = Consensus::new(0);
    assert!(!c.established());
    let out = c.perform_sync(locators());
    assert_eq!(out.events, vec![ConsensusEvent::Established]);
    assert!(out.request.is_none());
    assert!(out.allow_inbound);
    assert!(c.established());
}

#[test]
fn quorum_scenario_syncs_the_lagging_peer_then_establishes() {
    // Three peers; two synced full nodes, one unsynced; threshold two.
    let mut c = Consensus::new(2);
    join(&mut c, 1, true);
    join(&mut c, 2, true);
    join(&mut c, 3, false);
    mark_synced(&mut c, 1);
    mark_synced(&mut c, 2);

    let out = c.perform_sync(locators());
    // Exactly one Syncing event, one block request, sent to the unsynced peer.
    assert_eq!(out.events, vec![ConsensusEvent::Syncing]);
    let request = out.request.expect("an unsynced peer gets a block request");
    assert_eq!(request.peer_id, 3);
    match request.message {
        Message::RequestBlocks(rr) => {
            assert_eq!(rr.msg.max_blocks, 100);
            assert_eq!(rr.msg.filter, RequestBlocksFilter::All);
            assert_eq!(rr.request_identifier, request.request_id);
        }
        _ => panic!("the sync attempt must send a block request"),
    }
    assert!(!c.established());

    // The peer catches up and the attempt completes.
    mark_synced(&mut c, 3);
    let reply: Result<Objects<BlockComponents>, ResponseError> =
        Ok(Objects::with_hashes(vec![]));
    let applied = c.sync_protocol.apply_sync_reply(reply, vec![]);
    assert!(applied.is_ok());

    // The next pass finds no candidate and a met quorum: exactly one
    // Established event and no further request.
    let out = c.perform_sync(locators());
    assert_eq!(out.events, vec![ConsensusEvent::Established]);
    assert!(out.request.is_none());
    assert!(out.allow_inbound);
    assert!(c.established());
}

#[test]
fn a_pass_while_an_attempt_is_in_flight_changes_nothing() {
    let mut c = Consensus::new(0);
    join(&mut c, 1, true);
    let first = c.perform_sync(locators());
    assert!(first.request.is_some());
    let len_before = c.state.agents.len();

    // A second trigger while the attempt is in flight: no event, no second
    // wire request, no registry change.
    let second = c.perform_sync(locators());
    assert!(second.events.is_empty());
    assert!(second.request.is_none());
    assert!(!second.allow_inbound);
    assert_eq!(c.state.agents.len(), len_before);

    // The original request is still the one pending: its reply resolves it.
    let sent = first.request.unwrap();
    let payload: Objects<BlockComponents> = Objects::with_hashes(vec![]);
    let resolved = c.on_message(
        sent.peer_id,
        Message::Blocks(Box::new(
            nimiq_consensus::messages::RequestResponse::new(payload, sent.request_id),
        )),
    );
    assert!(resolved.is_some());
}

#[test]
fn losing_quorum_emits_lost_then_waiting() {
    let mut c = Consensus::new(1);
    join(&mut c, 1, true);
    mark_synced(&mut c, 1);
    let out = c.perform_sync(locators());
    assert_eq!(out.events, vec![ConsensusEvent::Established]);
    assert!(c.established());

    // The one synced full node leaves: the count drops below the quorum.
    let _ = c.on_peer_left(Peer { id: 1, full_node: true });
    let out = c.perform_sync(locators());
    assert_eq!(out.events, vec![ConsensusEvent::Lost, ConsensusEvent::Waiting]);
    assert!(!c.established());
    assert!(out.request.is_none());
}

#[test]
fn below_quorum_with_everyone_synced_waits() {
    let mut c = Consensus::new(2);
    join(&mut c, 1, true);
    mark_synced(&mut c, 1);
    let out = c.perform_sync(locators());
    assert_eq!(out.events, vec![ConsensusEvent::Waiting]);
    assert!(!c.established());
    assert!(!out.allow_inbound);
}

#[test]
fn the_strategy_works_through_its_trait() {
    let mut c = Consensus::new(0);
    join(&mut c, 4, true);
    let m = c.min_full_nodes;
    let out = SyncProtocol::perform_sync(&mut c.sync_protocol, &mut c.state, locators(), m);
    assert_eq!(out.events, vec![ConsensusEvent::Syncing]);
    assert!(out.request.is_some());
    assert!(!SyncProtocol::is_established(&c.sync_protocol));
}

#[test]
fn a_failed_reply_aborts_the_attempt() {
    let mut c = Consensus::new(0);
    join(&mut c, 1, true);
    let out = c.perform_sync(locators());
    assert!(out.request.is_some());

    let reply: Result<Objects<BlockComponents>, ResponseError> =
        Err(ResponseError::Timeout);
    let applied = c.sync_protocol.apply_sync_reply(reply, vec![]);
    assert!(matches!(applied, Err(SyncError::Other)));

    // The attempt is over either way: a new pass may start.
    let out = c.perform_sync(locators());
    assert!(out.request.is_some());
}

#[test]
fn one_undecodable_block_aborts_the_whole_batch() {
    let mut c = Consensus::new(0);
    join(&mut c, 1, true);
    let _ = c.perform_sync(locators());

    let components = BlockComponents {
        header: Some(vec![1, 2, 3]),
        justification: None,
        extrinsics: None,
    };
    let reply: Result<Objects<BlockComponents>, ResponseError> =
        Ok(Objects::with_objects(vec![components.clone(), components]));
    let good = Block { hash: Blake2bHash::new([9; 32]) };
    // The second component set failed to decode: nothing is applied.
    let applied = c.sync_protocol.apply_sync_reply(reply, vec![Some(good), None]);
    assert!(matches!(applied, Err(SyncError::Other)));
}

#[test]
fn a_fully_decoded_batch_is_accepted_in_order() {
    let mut c = Consensus::new(0);
    join(&mut c, 1, true);
    let _ = c.perform_sync(locators());

    let components = BlockComponents {
        header: Some(vec![1]),
        justification: Some(vec![2]),
        extrinsics: None,
    };
    let reply: Result<Objects<BlockComponents>, ResponseError> =
        Ok(Objects::with_objects(vec![components.clone(), components]));
    let b1 = Block { hash: Blake2bHash::new([1; 32]) };
    let b2 = Block { hash: Blake2bHash::new([2; 32]) };
    let applied = c.sync_protocol.apply_sync_reply(reply, vec![Some(b1), Some(b2)]);
    let blocks = applied.expect("a fully decoded batch succeeds");
    assert_eq!(blocks.len(), 2);
    assert!(blocks[0].hash == Blake2bHash::new([1; 32]));
    assert!(blocks[1].hash == Blake2bHash::new([2; 32]));
}
