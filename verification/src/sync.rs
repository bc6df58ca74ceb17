//! The catch-up and quorum state machine ("history sync"): each attempt
//! scans the registry once, tallies the synced full nodes, elects one
//! not-yet-synced peer at random to request blocks from, and flips the
//! node-wide established flag exactly at the quorum boundary. At most one
//! attempt is in flight across the whole node.

use vstd::prelude::*;
use crate::agent::{ConsensusAgent, SentRequest};
use crate::block::{Block, BlockComponents};
use crate::consensus::{ConsensusEvent, ConsensusState};
use crate::hashes::Blake2bHash;
use crate::messages::{Objects, RequestBlocksFilter, MAX_LOCATORS};
use crate::response::ResponseError;

verus! {

/// Why a sync attempt was abandoned. Every failure of an attempt — an
/// unusable reply, a timeout, a block that would not decode — is absorbed
/// into this one variant; retry waits for the next join or leave.
#[derive(Clone, Copy, Debug, PartialEq, Eq, Structural)]
pub enum SyncError {
    Other,
}

/// How many synced full nodes a run of registry entries holds.
pub open spec fn count_synced_full_nodes(s: Seq<(u64, ConsensusAgent)>) -> int
    decreases s.len(),
{
    if s.len() == 0 {
        0
    } else {
        count_synced_full_nodes(s.drop_last()) + if s.last().1.synced && s.last().1.peer.full_node {
            1int
        } else {
            0int
        }
    }
}

/// The positions of the entries whose peer is not yet synced: the
/// candidates a sync attempt may pick from.
pub open spec fn unsynced_indices(s: Seq<(u64, ConsensusAgent)>) -> Seq<int>
    decreases s.len(),
{
    if s.len() == 0 {
        Seq::empty()
    } else {
        let rest = unsynced_indices(s.drop_last());
        if !s.last().1.synced {
            rest.push(s.len() - 1)
        } else {
            rest
        }
    }
}

/// Every candidate position points at an unsynced entry.
pub proof fn lemma_unsynced_indices_valid(s: Seq<(u64, ConsensusAgent)>, j: int)
    requires
        0 <= j < unsynced_indices(s).len(),
    ensures
        0 <= unsynced_indices(s)[j] < s.len(),
        !s[unsynced_indices(s)[j]].1.synced,
    decreases s.len(),
{
    if s.len() > 0 {
        let rest = unsynced_indices(s.drop_last());
        if j < rest.len() {
            lemma_unsynced_indices_valid(s.drop_last(), j);
        }
    }
}

/// Whether the node counts as established after one sync pass, from what it
/// was, the synced-full-node count, the quorum threshold, and how many
/// unsynced candidates remain: it becomes true exactly when no candidate
/// remains and the count meets the threshold, and it survives exactly while
/// the count meets the threshold.
pub open spec fn sync_established_after(
    was_established: bool,
    num_synced_full_nodes: int,
    min_full_nodes: int,
    candidate_count: int,
) -> bool {
    if candidate_count == 0 && num_synced_full_nodes >= min_full_nodes {
        true
    } else {
        was_established && num_synced_full_nodes >= min_full_nodes
    }
}

/// The events one sync pass emits, in order: Lost when an established node
/// drops below quorum; then Syncing when an attempt starts on a node not
/// (or no longer) established, Established when the node first reaches
/// quorum with no candidate left, Waiting when it is below quorum with
/// nothing left to sync.
pub open spec fn sync_events(
    was_established: bool,
    num_synced_full_nodes: int,
    min_full_nodes: int,
    candidate_count: int,
) -> Seq<ConsensusEvent> {
    let lost = if was_established && num_synced_full_nodes < min_full_nodes {
        seq![ConsensusEvent::Lost]
    } else {
        Seq::<ConsensusEvent>::empty()
    };
    let still_established = was_established && num_synced_full_nodes >= min_full_nodes;
    if candidate_count > 0 {
        if !still_established {
            lost.push(ConsensusEvent::Syncing)
        } else {
            lost
        }
    } else {
        if num_synced_full_nodes >= min_full_nodes {
            if !was_established {
                lost.push(ConsensusEvent::Established)
            } else {
                lost
            }
        } else {
            lost.push(ConsensusEvent::Waiting)
        }
    }
}

/// Law: the quorum transition. A node that was not established becomes so
/// exactly when the synced-full-node count meets the threshold and no
/// unsynced candidate remains; a node that was established stops being so
/// exactly when the count drops below the threshold.
pub proof fn lemma_quorum_transition(
    was_established: bool,
    num_synced_full_nodes: int,
    min_full_nodes: int,
    candidate_count: int,
)
    requires
        candidate_count >= 0,
    ensures
        !was_established ==> (sync_established_after(
            was_established,
            num_synced_full_nodes,
            min_full_nodes,
            candidate_count,
        ) <==> (candidate_count == 0 && num_synced_full_nodes >= min_full_nodes)),
        was_established ==> (!sync_established_after(
            was_established,
            num_synced_full_nodes,
            min_full_nodes,
            candidate_count,
        ) <==> num_synced_full_nodes < min_full_nodes),
{
}

/// What one sync pass decided: the events to announce, the block request to
/// put on the wire (if an attempt started), and whether inbound connections
/// may now be accepted.
pub struct SyncOutcome {
    pub events: Vec<ConsensusEvent>,
    pub request: Option<SentRequest>,
    pub allow_inbound: bool,
}

/// The sync algorithm's own state: the peer of the attempt in flight, if
/// any, and the node's consensus status.
pub struct HistorySyncState {
    pub sync_peer: Option<u64>,
    pub established: bool,
}

impl Default for HistorySyncState {
    fn default() -> (r: HistorySyncState)
        ensures
            r.sync_peer is None,
            !r.established,
    {
        HistorySyncState { sync_peer: None, established: false }
    }
}

/// The provided sync strategy: catch up with one random unsynced peer at a
/// time and derive the established flag from the quorum of synced full
/// nodes.
pub struct HistorySync {
    pub state: HistorySyncState,
}

impl Default for HistorySync {
    fn default() -> (r: HistorySync)
        ensures
            r.state.sync_peer is None,
            !r.state.established,
    {
        HistorySync { state: HistorySyncState::default() }
    }
}

/// A sync strategy: it runs one sync pass over the registry and reports
/// whether the node's consensus is established.
pub trait SyncProtocol {
    fn perform_sync(
        &mut self,
        state: &mut ConsensusState,
        locators: Vec<Blake2bHash>,
        min_full_nodes: usize,
    ) -> (r: SyncOutcome)
        requires
            old(state).wf(),
            locators@.len() <= MAX_LOCATORS,
        ensures
            final(state).wf(),
    ;

    fn is_established(&self) -> bool;
}

/// Relies on rand's thread-local generator: `gen_range(0..len)` returns a
/// uniformly drawn value of the range, so only membership is stated.
#[verifier::external_body]
fn pick_index(len: usize) -> (r: usize)
    requires
        len > 0,
    ensures
        r < len,
{
    rand::Rng::gen_range(&mut rand::thread_rng(), 0..len)
}

impl HistorySync {
    /// Issue the catch-up block request of one attempt through the chosen
    /// agent: up to 100 blocks past the given locators, all block kinds.
    fn sync_with_peer(
        &mut self,
        state: &mut ConsensusState,
        index: usize,
        locators: Vec<Blake2bHash>,
    ) -> (r: SentRequest)
        requires
            old(state).wf(),
            index < old(state).agents.len_spec(),
            locators@.len() <= MAX_LOCATORS,
        ensures
            final(state).wf(),
            *final(self) == *old(self),
            r.peer_id == old(state).agents.entries_seq()[index as int].0,
            final(state).agents@.dom() == old(state).agents@.dom(),
            final(state).agents.len_spec() == old(state).agents.len_spec(),
            forall|k: u64|
                k != r.peer_id && old(state).agents@.dom().contains(k) ==> final(state).agents@[k]
                    == (#[trigger] old(state).agents@[k]),
            ({
                let chosen = old(state).agents.entries_seq()[index as int].1;
                let updated = final(state).agents@[r.peer_id];
                &&& r.request_id == chosen.state.current_request_identifier
                &&& updated.peer == chosen.peer
                &&& updated.synced == chosen.synced
                &&& updated.pending().dom() == chosen.pending().dom().insert(r.request_id as u64)
                &&& updated.pending()[r.request_id as u64].is_pending()
            }),
            r.message matches crate::messages::Message::RequestBlocks(rr) && rr.msg.locators@
                == locators@ && rr.msg.max_blocks == 100 && rr.msg.filter
                == RequestBlocksFilter::All && rr.request_identifier == r.request_id,
    {
        let ghost prior_agents = old(state).agents;
        let ghost key = old(state).agents.entries_seq()[index as int].0;
        let agent = state.agents.value_at_mut(index);
        let r = agent.request_blocks(locators, 100, RequestBlocksFilter::All);
        proof {
            crate::id_map::lemma_view_after_value_update(
                prior_agents,
                final(state).agents,
                index as int,
                final(state).agents.entries_seq()[index as int].1,
            );
            prior_agents.lemma_index_of_unique(key, index as int);
            prior_agents.lemma_view_agrees(key);
            assert(final(state).agents@.dom() =~= prior_agents@.dom());
        }
        r
    }

    /// One sync pass (the serialization point of all sync triggers):
    ///
    /// - a pass while an attempt is in flight changes nothing and sends
    ///   nothing;
    /// - otherwise it scans the registry once, emits Lost if an established
    ///   node fell below the quorum of synced full nodes, then either elects
    ///   one unsynced peer at random and requests blocks from it (emitting
    ///   Syncing on a node not established), or — with every connected peer
    ///   synced — flips to established and permits inbound connections when
    ///   the quorum is met, and emits Waiting when it is not.
    #[verifier::loop_isolation(false)]
    pub fn perform_sync(
        &mut self,
        state: &mut ConsensusState,
        locators: Vec<Blake2bHash>,
        min_full_nodes: usize,
    ) -> (r: SyncOutcome)
        requires
            old(state).wf(),
            locators@.len() <= MAX_LOCATORS,
        ensures
            final(state).wf(),
            old(self).state.sync_peer is Some ==> {
                &&& *final(self) == *old(self)
                &&& *final(state) == *old(state)
                &&& r.events@ == Seq::<ConsensusEvent>::empty()
                &&& r.request is None
                &&& !r.allow_inbound
            },
            old(self).state.sync_peer is None ==> {
                let s = old(state).agents.entries_seq();
                let f = count_synced_full_nodes(s);
                let c = unsynced_indices(s).len() as int;
                let was = old(self).state.established;
                let m = min_full_nodes as int;
                &&& final(self).state.established == sync_established_after(was, f, m, c)
                &&& r.events@ == sync_events(was, f, m, c)
                &&& r.allow_inbound == (c == 0 && f >= m && !was)
                &&& (c == 0 ==> {
                    &&& final(self).state.sync_peer is None
                    &&& *final(state) == *old(state)
                    &&& r.request is None
                })
                &&& (c > 0 ==> {
                    &&& r.request matches Some(req)
                    &&& final(self).state.sync_peer == Some(req.peer_id)
                    &&& (exists|i: int|
                        0 <= i < s.len() && !(#[trigger] s[i]).1.synced && s[i].0 == req.peer_id)
                    &&& final(state).agents@.dom() == old(state).agents@.dom()
                    &&& final(state).agents.len_spec() == old(state).agents.len_spec()
                    &&& (forall|k: u64|
                        k != req.peer_id && old(state).agents@.dom().contains(k) ==> final(state).agents@[k] == (#[trigger] old(state).agents@[k]))
                    &&& old(state).agents@.dom().contains(req.peer_id)
                    &&& req.request_id == old(
                        state,
                    ).agents@[req.peer_id].state.current_request_identifier
                    &&& final(state).agents@[req.peer_id].pending().dom() == old(
                        state,
                    ).agents@[req.peer_id].pending().dom().insert(req.request_id as u64)
                    &&& final(state).agents@[req.peer_id].pending()[req.request_id as u64].is_pending()
                    &&& final(state).agents@[req.peer_id].synced == old(
                        state,
                    ).agents@[req.peer_id].synced
                    &&& (req.message matches crate::messages::Message::RequestBlocks(rr)
                        && rr.msg.locators@ == locators@ && rr.msg.max_blocks == 100
                        && rr.msg.filter == RequestBlocksFilter::All && rr.request_identifier
                        == req.request_id)
                })
            },
    {
        if self.state.sync_peer.is_some() {
            return SyncOutcome { events: Vec::new(), request: None, allow_inbound: false };
        }

        let ghost s = state.agents.entries_seq();
        let n = state.agents.len();
        let mut num_synced_full_nodes: usize = 0;
        let mut candidates: Vec<usize> = Vec::new();
        let mut i: usize = 0;
        while i < n
            invariant
                i <= n,
                num_synced_full_nodes <= i,
                num_synced_full_nodes == count_synced_full_nodes(s.take(i as int)),
                candidates@.len() == unsynced_indices(s.take(i as int)).len(),
                forall|j: int|
                    0 <= j < candidates@.len() ==> (#[trigger] candidates@[j]) as int
                        == unsynced_indices(s.take(i as int))[j],
            decreases n - i,
        {
            let agent = state.agents.value_at(i);
            let is_synced = agent.synced();
            if is_synced && agent.peer.full_node {
                num_synced_full_nodes += 1;
            }
            if !is_synced {
                candidates.push(i);
            }
            proof {
                assert(s.take(i + 1).drop_last() =~= s.take(i as int));
                assert(s.take(i + 1).last() == s[i as int]);
            }
            i += 1;
        }
        proof {
            assert(s.take(n as int) =~= s);
        }

        let mut events: Vec<ConsensusEvent> = Vec::new();

        // Report consensus lost when an established node no longer has the
        // minimum number of synced full nodes.
        if self.state.established && num_synced_full_nodes < min_full_nodes {
            self.state.established = false;
            events.push(ConsensusEvent::Lost);
        }

        if candidates.len() > 0 {
            // Choose a random peer the node is not yet synced with.
            let pick = pick_index(candidates.len());
            let index = candidates[pick];
            proof {
                lemma_unsynced_indices_valid(s, pick as int);
            }

            // Tell listeners that syncing starts whenever consensus is not
            // (or no longer) established.
            if !self.state.established {
                events.push(ConsensusEvent::Syncing);
            }

            let peer_id = state.agents.key_at(index);
            self.state.sync_peer = Some(peer_id);
            let ghost prior_agents = state.agents;
            let request = self.sync_with_peer(state, index, locators);
            proof {
                assert(!s[index as int].1.synced && s[index as int].0 == request.peer_id);
                prior_agents.lemma_index_of_unique(request.peer_id, index as int);
                prior_agents.lemma_view_agrees(request.peer_id);
                assert(events@ == sync_events(
                    old(self).state.established,
                    count_synced_full_nodes(s),
                    min_full_nodes as int,
                    unsynced_indices(s).len() as int,
                ));
            }
            SyncOutcome { events, request: Some(request), allow_inbound: false }
        } else {
            // The node is synced with every connected peer.
            if num_synced_full_nodes >= min_full_nodes {
                if !self.state.established {
                    self.state.established = true;
                    events.push(ConsensusEvent::Established);
                    // Allow inbound network connections now that consensus
                    // is established.
                    return SyncOutcome { events, request: None, allow_inbound: true };
                }
                SyncOutcome { events, request: None, allow_inbound: false }
            } else {
                // Wait until more peer connections are established.
                events.push(ConsensusEvent::Waiting);
                SyncOutcome { events, request: None, allow_inbound: false }
            }
        }
    }

    /// Whether the node's consensus is established.
    pub fn is_established(&self) -> (r: bool)
        ensures
            r == self.state.established,
    {
        self.state.established
    }

    /// End the attempt in flight with the reply it got: a failed request
    /// aborts the attempt with a sync error, as does any block component
    /// set that would not decode (nothing of the batch is applied then);
    /// a reply of bare hashes or of fully decoded blocks succeeds and hands
    /// the blocks on. Either way the attempt is over: the sync peer is
    /// cleared so a future trigger can proceed.
    pub fn apply_sync_reply(
        &mut self,
        reply: Result<Objects<BlockComponents>, ResponseError>,
        decoded: Vec<Option<Block>>,
    ) -> (r: Result<Vec<Block>, SyncError>)
        requires
            reply matches Ok(o) && o matches Objects::Objects(v) ==> decoded@.len() == v@.len(),
        ensures
            final(self).state.sync_peer is None,
            final(self).state.established == old(self).state.established,
            reply is Err ==> (r matches Err(e) && e == SyncError::Other),
            reply matches Ok(o) && o matches Objects::Hashes(h) ==> (r matches Ok(bs) && bs@.len()
                == 0),
            reply matches Ok(o) && o matches Objects::Objects(v) ==> match r {
                Ok(bs) => {
                    &&& bs@.len() == decoded@.len()
                    &&& forall|j: int|
                        0 <= j < decoded@.len() ==> ((#[trigger] decoded@[j]) matches Some(b) && b
                            == bs@[j])
                },
                Err(e) => {
                    &&& e == SyncError::Other
                    &&& exists|j: int| 0 <= j < decoded@.len() && (#[trigger] decoded@[j]) is None
                },
            },
    {
        self.state.sync_peer = None;
        match reply {
            Err(_) => Err(SyncError::Other),
            Ok(Objects::Hashes(_)) => Ok(Vec::new()),
            Ok(Objects::Objects(_)) => collect_decoded(decoded),
        }
    }
}

impl SyncProtocol for HistorySync {
    fn perform_sync(
        &mut self,
        state: &mut ConsensusState,
        locators: Vec<Blake2bHash>,
        min_full_nodes: usize,
    ) -> SyncOutcome {
        HistorySync::perform_sync(self, state, locators, min_full_nodes)
    }

    fn is_established(&self) -> bool {
        HistorySync::is_established(self)
    }
}

/// All block decode results of one batch, or the first failure: a single
/// decode failure aborts the whole batch rather than applying part of it.
fn collect_decoded(decoded: Vec<Option<Block>>) -> (r: Result<Vec<Block>, SyncError>)
    ensures
        match r {
            Ok(bs) => {
                &&& bs@.len() == decoded@.len()
                &&& forall|j: int|
                    0 <= j < decoded@.len() ==> ((#[trigger] decoded@[j]) matches Some(b) && b
                        == bs@[j])
            },
            Err(e) => {
                &&& e == SyncError::Other
                &&& exists|j: int| 0 <= j < decoded@.len() && (#[trigger] decoded@[j]) is None
            },
        },
{
    let mut blocks: Vec<Block> = Vec::new();
    let n = decoded.len();
    let mut i: usize = 0;
    while i < n
        invariant
            n == decoded@.len(),
            i <= n,
            blocks@.len() == i,
            forall|j: int|
                0 <= j < i ==> ((#[trigger] decoded@[j]) matches Some(b) && b == blocks@[j]),
        decreases n - i,
    {
        match &decoded[i] {
            Some(block) => {
                blocks.push(*block);
            }
            None => {
                return Err(SyncError::Other);
            }
        }
        i += 1;
    }
    Ok(blocks)
}

} // verus!
