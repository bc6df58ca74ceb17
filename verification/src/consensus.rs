//! The consensus orchestrator: it keeps the peer-agent registry in step
//! with peer joins and leaves, routes inbound messages and request timeouts
//! to the right agent, plans the relay of new blocks and transactions to
//! every registered peer once consensus is established, and runs the sync
//! strategy's passes.

use vstd::prelude::*;
use crate::agent::{fresh_agent, BlockResponse, ConsensusAgent, MessageDisposition, Peer};
use crate::block::Block;
use crate::hashes::Blake2bHash;
use crate::id_map::IdMap;
use crate::messages::{Message, MAX_LOCATORS};
use crate::response::ResponseError;
use crate::sync::{HistorySync, SyncOutcome};
use crate::transaction::Transaction;

verus! {

/// What the node tells its listeners about its consensus status.
#[derive(Clone, Copy, Debug, PartialEq, Eq, Structural)]
pub enum ConsensusEvent {
    Established,
    Lost,
    Syncing,
    Waiting,
    SyncFailed,
}

/// The network events the orchestrator reacts to.
pub enum NetworkEvent {
    PeerJoined(Peer),
    PeerLeft(Peer),
}

/// The transaction-pool events the orchestrator reacts to.
pub enum MempoolEvent {
    TransactionAdded(Blake2bHash, Transaction),
    TransactionRestored(Transaction),
    TransactionEvicted(Transaction),
    TransactionMined(Transaction),
}

/// The chain events the orchestrator reacts to: the head moved forward, a
/// branch was adopted (with the reverted and the adopted blocks, in branch
/// order), or the head was finalized.
pub enum BlockchainEvent {
    Extended(Blake2bHash),
    Rebranched(Vec<(Blake2bHash, Block)>, Vec<(Blake2bHash, Block)>),
    Finalized(Blake2bHash),
}

/// When the caller should run the next sync pass: after the coalescing
/// delay (joins arrive in bursts; one pass serves them all), or at once
/// (a departure can change quorum membership or the sync target).
#[derive(Clone, Copy, Debug, PartialEq, Eq, Structural)]
pub enum SyncTrigger {
    Throttled,
    Immediate,
}

/// The relay plan for one transaction-pool event: announce the transaction
/// to the listed peers, or retract it from them.
pub enum MempoolRelay {
    Announce(Vec<(u64, Transaction)>),
    Retract(Vec<(u64, Transaction)>),
}

/// The registry: one agent per currently connected peer, keyed by the
/// peer's identity.
pub struct ConsensusState {
    pub agents: IdMap<ConsensusAgent>,
}

impl ConsensusState {
    /// Keys are unique, each entry sits under its own peer's identity, and
    /// each agent is internally consistent.
    pub open spec fn wf(&self) -> bool {
        &&& self.agents.wf()
        &&& forall|i: int|
            0 <= i < self.agents.entries_seq().len() ==> (#[trigger] self.agents.entries_seq()[i]).0
                == self.agents.entries_seq()[i].1.peer.id
        &&& forall|i: int|
            0 <= i < self.agents.entries_seq().len() ==> (#[trigger] self.agents.entries_seq()[i]).1.wf()
    }
}

/// In a well-formed registry, the agent under a key is well-formed and
/// carries that key as its peer's identity.
pub proof fn lemma_registry_agent_wf(st: &ConsensusState, k: u64)
    requires
        st.wf(),
        st.agents@.dom().contains(k),
    ensures
        st.agents@[k].wf(),
        st.agents@[k].peer.id == k,
{
    st.agents.lemma_view_agrees(k);
    let i = st.agents.index_of(k);
    assert(st.agents.entries_seq()[i].1.wf());
}

/// Law: the registry's size always equals the number of currently
/// connected peers — its entries carry pairwise-distinct peer identities,
/// so the count of entries is the count of distinct peers present, however
/// joins and leaves were interleaved to reach this state.
pub proof fn lemma_registry_size_is_peer_count(st: &ConsensusState)
    requires
        st.wf(),
    ensures
        st.agents@.dom().finite(),
        st.agents.len_spec() == st.agents@.dom().len(),
{
    st.agents.lemma_len_is_dom_card();
}

/// How one network event changes the set of connected peers: a join adds
/// the peer, a leave removes it.
pub open spec fn connected_peers_step(connected: Set<u64>, event: NetworkEvent) -> Set<u64> {
    match event {
        NetworkEvent::PeerJoined(p) => connected.insert(p.id),
        NetworkEvent::PeerLeft(p) => connected.remove(p.id),
    }
}

/// The relay entries one agent receives for a run of blocks.
pub open spec fn relay_to_agent(id: u64, blocks: Seq<Block>) -> Seq<(u64, Block)> {
    blocks.map_values(|b: Block| (id, b))
}

/// The full block relay plan: every registered agent, in registry order,
/// receives every block, in the given order.
pub open spec fn block_relay_plan(agents: Seq<(u64, ConsensusAgent)>, blocks: Seq<Block>) -> Seq<
    (u64, Block),
>
    decreases agents.len(),
{
    if agents.len() == 0 {
        Seq::empty()
    } else {
        block_relay_plan(agents.drop_last(), blocks) + relay_to_agent(agents.last().0, blocks)
    }
}

/// The blocks a chain event carries to the peers: the new head alone when
/// the chain extended or finalized, every newly adopted block in branch
/// order after a rebranch.
pub open spec fn blocks_of_event(event: BlockchainEvent, head: Block) -> Seq<Block> {
    match event {
        BlockchainEvent::Extended(_) => seq![head],
        BlockchainEvent::Finalized(_) => seq![head],
        BlockchainEvent::Rebranched(_, adopted) => adopted@.map_values(
            |p: (Blake2bHash, Block)| p.1,
        ),
    }
}

/// The full transaction relay plan: every registered agent, in registry
/// order, receives the transaction.
pub open spec fn tx_relay_plan(agents: Seq<(u64, ConsensusAgent)>, tx: Transaction) -> Seq<
    (u64, Transaction),
> {
    agents.map_values(|e: (u64, ConsensusAgent)| (e.0, tx))
}

/// The orchestrator's state: the registry, the sync strategy, and the
/// configured quorum threshold (zero disables the quorum requirement).
pub struct Consensus {
    pub state: ConsensusState,
    pub sync_protocol: HistorySync,
    pub min_full_nodes: usize,
}

impl Consensus {
    /// The default quorum threshold: zero, the single-node-tolerant mode in
    /// which the node establishes as soon as no unsynced candidate remains.
    pub const MIN_FULL_NODES: usize = 0;

    pub open spec fn wf(&self) -> bool {
        self.state.wf()
    }

    pub fn new(min_full_nodes: usize) -> (r: Consensus)
        ensures
            r.wf(),
            r.state.agents@ == Map::<u64, ConsensusAgent>::empty(),
            r.state.agents.len_spec() == 0,
            !r.sync_protocol.state.established,
            r.sync_protocol.state.sync_peer is None,
            r.min_full_nodes == min_full_nodes,
    {
        Consensus {
            state: ConsensusState { agents: IdMap::new() },
            sync_protocol: HistorySync::default(),
            min_full_nodes,
        }
    }

    /// A peer joined: put a fresh agent for it into the registry. A second
    /// join of the same peer replaces its agent. The caller should arm (or
    /// reset) the coalescing sync delay.
    pub fn on_peer_joined(&mut self, peer: Peer)
        requires
            old(self).wf(),
        ensures
            final(self).wf(),
            final(self).sync_protocol == old(self).sync_protocol,
            final(self).min_full_nodes == old(self).min_full_nodes,
            final(self).state.agents@.dom() == old(self).state.agents@.dom().insert(peer.id),
            fresh_agent(final(self).state.agents@[peer.id], peer),
            forall|k: u64|
                k != peer.id && old(self).state.agents@.dom().contains(k) ==> final(self).state.agents@[k] == (#[trigger] old(self).state.agents@[k]),
            old(self).state.agents@.dom().contains(peer.id) ==> {
                &&& final(self).state.agents.len_spec() == old(self).state.agents.len_spec()
                &&& final(self).state.agents.entries_seq() == old(self).state.agents.entries_seq().update(
                    old(self).state.agents.index_of(peer.id),
                    (peer.id, final(self).state.agents@[peer.id]),
                )
            },
            !old(self).state.agents@.dom().contains(peer.id) ==> {
                &&& final(self).state.agents.len_spec() == old(self).state.agents.len_spec() + 1
                &&& final(self).state.agents.entries_seq() == old(self).state.agents.entries_seq().push((peer.id, final(self).state.agents@[peer.id]))
            },
    {
        let ghost prior = self.state.agents;
        let agent = ConsensusAgent::new(peer);
        proof {
            prior.lemma_view_agrees(peer.id);
        }
        self.state.agents.insert(peer.id, agent);
        proof {
            let s_old = prior.entries_seq();
            let s_new = self.state.agents.entries_seq();
            assert forall|i: int| 0 <= i < s_new.len() implies (#[trigger] s_new[i]).0
                == s_new[i].1.peer.id && s_new[i].1.wf() by {
                if prior.contains_key_spec(peer.id) {
                    if i != prior.index_of(peer.id) {
                        assert(s_new[i] == s_old[i]);
                    }
                } else {
                    if i < s_old.len() {
                        assert(s_new[i] == s_old[i]);
                    }
                }
            }
            assert(final(self).state.agents@.dom() =~= old(self).state.agents@.dom().insert(
                peer.id,
            ));
        }
    }

    /// A peer left: drop its agent from the registry and resolve every
    /// response its requests were still waiting for, so none is left
    /// pending forever. The caller should run a sync pass at once.
    pub fn on_peer_left(&mut self, peer: Peer) -> (cancelled: Vec<BlockResponse>)
        requires
            old(self).wf(),
        ensures
            final(self).wf(),
            final(self).sync_protocol == old(self).sync_protocol,
            final(self).min_full_nodes == old(self).min_full_nodes,
            final(self).state.agents@ == old(self).state.agents@.remove(peer.id),
            !final(self).state.agents@.dom().contains(peer.id),
            old(self).state.agents@.dom().contains(peer.id) ==> {
                &&& final(self).state.agents.len_spec() + 1 == old(self).state.agents.len_spec()
                &&& cancelled@.len() == old(self).state.agents@[peer.id].pending().dom().len()
                &&& final(self).state.agents.entries_seq() == old(self).state.agents.entries_seq().remove(old(self).state.agents.index_of(peer.id))
            },
            !old(self).state.agents@.dom().contains(peer.id) ==> {
                &&& *final(self) == *old(self)
                &&& cancelled@.len() == 0
            },
            forall|i: int|
                0 <= i < cancelled@.len() ==> (#[trigger] cancelled@[i]).is_resolved()
                    && cancelled@[i].outcome() == Result::<
                    crate::messages::Objects<crate::block::BlockComponents>,
                    ResponseError,
                >::Err(ResponseError::Timeout),
    {
        let ghost prior = *self;
        match self.state.agents.remove(peer.id) {
            Some(mut agent) => {
                proof {
                    lemma_registry_agent_wf(&prior.state, peer.id);
                    let s_old = prior.state.agents.entries_seq();
                    let s_new = final(self).state.agents.entries_seq();
                    let idx = prior.state.agents.index_of(peer.id);
                    assert forall|i: int| 0 <= i < s_new.len() implies (#[trigger] s_new[i]).0
                        == s_new[i].1.peer.id && s_new[i].1.wf() by {
                        if i < idx {
                            assert(s_new[i] == s_old[i]);
                        } else {
                            assert(s_new[i] == s_old[i + 1]);
                        }
                    }
                    agent.state.block_responses.lemma_len_is_dom_card();
                }
                agent.teardown()
            }
            None => Vec::new(),
        }
    }

    /// React to one network event: joins and leaves keep the registry in
    /// step, and each returns when the next sync pass should run, with the
    /// responses that a departing peer's requests were still waiting for.
    pub fn handle_network_event(&mut self, event: NetworkEvent) -> (r: (
        SyncTrigger,
        Vec<BlockResponse>,
    ))
        requires
            old(self).wf(),
        ensures
            final(self).wf(),
            final(self).sync_protocol == old(self).sync_protocol,
            final(self).min_full_nodes == old(self).min_full_nodes,
            final(self).state.agents@.dom() == connected_peers_step(
                old(self).state.agents@.dom(),
                event,
            ),
            event matches NetworkEvent::PeerJoined(p) ==> {
                &&& r.0 == SyncTrigger::Throttled
                &&& r.1@.len() == 0
                &&& final(self).state.agents@.dom() == old(self).state.agents@.dom().insert(p.id)
                &&& fresh_agent(final(self).state.agents@[p.id], p)
            },
            event matches NetworkEvent::PeerLeft(p) ==> {
                &&& r.0 == SyncTrigger::Immediate
                &&& final(self).state.agents@ == old(self).state.agents@.remove(p.id)
                &&& forall|i: int|
                    0 <= i < r.1@.len() ==> (#[trigger] r.1@[i]).is_resolved() && r.1@[i].outcome()
                        == Result::<
                        crate::messages::Objects<crate::block::BlockComponents>,
                        ResponseError,
                    >::Err(ResponseError::Timeout)
            },
    {
        match event {
            NetworkEvent::PeerJoined(peer) => {
                self.on_peer_joined(peer);
                (SyncTrigger::Throttled, Vec::new())
            }
            NetworkEvent::PeerLeft(peer) => {
                let cancelled = self.on_peer_left(peer);
                (SyncTrigger::Immediate, cancelled)
            }
        }
    }

    /// Whether the node's consensus is established.
    pub fn established(&self) -> (r: bool)
        ensures
            r == self.sync_protocol.state.established,
    {
        self.sync_protocol.is_established()
    }

    /// Run one sync pass against the registry, with the local chain's
    /// current locators.
    pub fn perform_sync(&mut self, locators: Vec<Blake2bHash>) -> (r: SyncOutcome)
        requires
            old(self).wf(),
            locators@.len() <= MAX_LOCATORS,
        ensures
            final(self).wf(),
            final(self).min_full_nodes == old(self).min_full_nodes,
            old(self).sync_protocol.state.sync_peer is Some ==> {
                &&& *final(self) == *old(self)
                &&& r.events@ == Seq::<ConsensusEvent>::empty()
                &&& r.request is None
                &&& !r.allow_inbound
            },
            old(self).sync_protocol.state.sync_peer is None ==> {
                let s = old(self).state.agents.entries_seq();
                let f = crate::sync::count_synced_full_nodes(s);
                let c = crate::sync::unsynced_indices(s).len() as int;
                let was = old(self).sync_protocol.state.established;
                let m = old(self).min_full_nodes as int;
                &&& final(self).sync_protocol.state.established
                    == crate::sync::sync_established_after(was, f, m, c)
                &&& r.events@ == crate::sync::sync_events(was, f, m, c)
                &&& r.allow_inbound == (c == 0 && f >= m && !was)
                &&& (c == 0 ==> {
                    &&& final(self).sync_protocol.state.sync_peer is None
                    &&& final(self).state == old(self).state
                    &&& r.request is None
                })
                &&& (c > 0 ==> {
                    &&& r.request matches Some(req)
                    &&& final(self).sync_protocol.state.sync_peer == Some(req.peer_id)
                    &&& (exists|i: int|
                        0 <= i < s.len() && !(#[trigger] s[i]).1.synced && s[i].0 == req.peer_id)
                    &&& final(self).state.agents@.dom() == old(self).state.agents@.dom()
                    &&& (forall|k: u64|
                        k != req.peer_id && old(self).state.agents@.dom().contains(k) ==> final(self).state.agents@[k] == (#[trigger] old(self).state.agents@[k]))
                    &&& old(self).state.agents@.dom().contains(req.peer_id)
                    &&& req.request_id == old(self).state.agents@[req.peer_id].state.current_request_identifier
                    &&& final(self).state.agents@[req.peer_id].pending().dom() == old(self).state.agents@[req.peer_id].pending().dom().insert(req.request_id as u64)
                    &&& final(self).state.agents@[req.peer_id].pending()[req.request_id as u64].is_pending()
                    &&& (req.message matches Message::RequestBlocks(rr) && rr.msg.locators@
                        == locators@ && rr.msg.max_blocks == 100 && rr.msg.filter
                        == crate::messages::RequestBlocksFilter::All && rr.request_identifier
                        == req.request_id)
                })
            },
    {
        let min_full_nodes = self.min_full_nodes;
        self.sync_protocol.perform_sync(&mut self.state, locators, min_full_nodes)
    }

    /// Route one inbound message from a peer to its agent. A message from a
    /// peer with no agent (already gone) is dropped.
    pub fn on_message(&mut self, peer_id: u64, msg: Message) -> (r: Option<MessageDisposition>)
        requires
            old(self).wf(),
        ensures
            final(self).wf(),
            final(self).sync_protocol == old(self).sync_protocol,
            final(self).min_full_nodes == old(self).min_full_nodes,
            final(self).state.agents@.dom() == old(self).state.agents@.dom(),
            !old(self).state.agents@.dom().contains(peer_id) ==> {
                &&& *final(self) == *old(self)
                &&& r is None
            },
            old(self).state.agents@.dom().contains(peer_id) ==> {
                let before = old(self).state.agents@[peer_id];
                let after = final(self).state.agents@[peer_id];
                &&& r matches Some(d)
                &&& after.peer == before.peer
                &&& after.synced == before.synced
                &&& (forall|k: u64|
                    k != peer_id && old(self).state.agents@.dom().contains(k) ==> final(self).state.agents@[k] == (#[trigger] old(self).state.agents@[k]))
                &&& (msg matches Message::Blocks(rr) ==> {
                    &&& after.pending() == before.pending().remove(rr.request_identifier as u64)
                    &&& d matches MessageDisposition::BlockReply(resp)
                    &&& (before.pending().dom().contains(rr.request_identifier as u64) ==> (
                    resp matches Some(c) && c.is_resolved() && c.outcome() == Result::<
                        crate::messages::Objects<crate::block::BlockComponents>,
                        ResponseError,
                    >::Ok(rr.msg)))
                    &&& (!before.pending().dom().contains(rr.request_identifier as u64)
                        ==> resp is None)
                })
                &&& (!(msg matches Message::Blocks(_)) ==> {
                    &&& after.pending() == before.pending()
                    &&& (d matches MessageDisposition::Distribute(m, plan) && m == msg && plan@
                        == before.msg_distributor.subscribers(msg.ty_spec()))
                })
            },
    {
        let ghost prior = *self;
        match self.state.agents.find_key_index(peer_id) {
            Some(index) => {
                let agent = self.state.agents.value_at_mut(index);
                let d = agent.on_message(msg);
                proof {
                    crate::id_map::lemma_view_after_value_update(
                        prior.state.agents,
                        final(self).state.agents,
                        index as int,
                        final(self).state.agents.entries_seq()[index as int].1,
                    );
                    lemma_registry_wf_after_value_update(&prior.state, &final(self).state, index as int);
                    assert(final(self).state.agents@.dom() =~= old(self).state.agents@.dom());
                }
                Some(d)
            }
            None => {
                proof {
                    prior.state.agents.lemma_view_agrees(peer_id);
                }
                None
            }
        }
    }

    /// Fire the timeout of one request at one peer. A timer that outlived
    /// its peer's agent is a no-op.
    pub fn on_request_timeout(&mut self, peer_id: u64, request_identifier: u32) -> (r: Option<
        Option<BlockResponse>,
    >)
        requires
            old(self).wf(),
        ensures
            final(self).wf(),
            final(self).sync_protocol == old(self).sync_protocol,
            final(self).min_full_nodes == old(self).min_full_nodes,
            final(self).state.agents@.dom() == old(self).state.agents@.dom(),
            !old(self).state.agents@.dom().contains(peer_id) ==> {
                &&& *final(self) == *old(self)
                &&& r is None
            },
            old(self).state.agents@.dom().contains(peer_id) ==> {
                let before = old(self).state.agents@[peer_id];
                let after = final(self).state.agents@[peer_id];
                &&& r matches Some(inner)
                &&& after.peer == before.peer
                &&& after.synced == before.synced
                &&& after.pending() == before.pending().remove(request_identifier as u64)
                &&& (forall|k: u64|
                    k != peer_id && old(self).state.agents@.dom().contains(k) ==> final(self).state.agents@[k] == (#[trigger] old(self).state.agents@[k]))
                &&& (before.pending().dom().contains(request_identifier as u64) ==> (
                inner matches Some(c) && c.is_resolved() && c.outcome() == Result::<
                    crate::messages::Objects<crate::block::BlockComponents>,
                    ResponseError,
                >::Err(ResponseError::Timeout)))
                &&& (!before.pending().dom().contains(request_identifier as u64)
                    ==> inner is None)
            },
    {
        let ghost prior = *self;
        match self.state.agents.find_key_index(peer_id) {
            Some(index) => {
                let agent = self.state.agents.value_at_mut(index);
                let inner = agent.on_timeout(request_identifier);
                proof {
                    crate::id_map::lemma_view_after_value_update(
                        prior.state.agents,
                        final(self).state.agents,
                        index as int,
                        final(self).state.agents.entries_seq()[index as int].1,
                    );
                    lemma_registry_wf_after_value_update(&prior.state, &final(self).state, index as int);
                    assert(final(self).state.agents@.dom() =~= old(self).state.agents@.dom());
                }
                Some(inner)
            }
            None => {
                proof {
                    prior.state.agents.lemma_view_agrees(peer_id);
                }
                None
            }
        }
    }

    /// Plan the relay of a chain event: once established, every registered
    /// agent receives the new head block (on extension or finalization) or
    /// every newly adopted block in branch order (on a rebranch); before
    /// consensus is established nothing is announced, since that would
    /// advertise an unverified view of the chain.
    pub fn on_blockchain_event(&self, event: &BlockchainEvent, head_block: &Block) -> (relay:
        Vec<(u64, Block)>)
        ensures
            self.sync_protocol.state.established ==> relay@ == block_relay_plan(
                self.state.agents.entries_seq(),
                blocks_of_event(*event, *head_block),
            ),
            !self.sync_protocol.state.established ==> relay@ == Seq::<(u64, Block)>::empty(),
    {
        let blocks: Vec<Block> = match event {
            BlockchainEvent::Extended(_) => {
                let mut v: Vec<Block> = Vec::new();
                v.push(*head_block);
                v
            }
            BlockchainEvent::Finalized(_) => {
                let mut v: Vec<Block> = Vec::new();
                v.push(*head_block);
                v
            }
            BlockchainEvent::Rebranched(_, adopted) => adopted_blocks(adopted),
        };
        proof {
            assert(blocks@ =~= blocks_of_event(*event, *head_block));
        }

        // Only relay blocks when the node is synced up.
        if !self.sync_protocol.is_established() {
            return Vec::new();
        }
        self.relay_blocks_to_all(&blocks)
    }

    /// The relay entries for a run of blocks: every agent, every block.
    #[verifier::loop_isolation(false)]
    fn relay_blocks_to_all(&self, blocks: &Vec<Block>) -> (relay: Vec<(u64, Block)>)
        ensures
            relay@ == block_relay_plan(self.state.agents.entries_seq(), blocks@),
    {
        let ghost s = self.state.agents.entries_seq();
        let mut relay: Vec<(u64, Block)> = Vec::new();
        let n = self.state.agents.len();
        let mut i: usize = 0;
        while i < n
            invariant
                i <= n,
                relay@ == block_relay_plan(s.take(i as int), blocks@),
            decreases n - i,
        {
            let id = self.state.agents.key_at(i);
            append_block_relays(&mut relay, id, blocks);
            proof {
                assert(s.take(i + 1).drop_last() =~= s.take(i as int));
                assert(s.take(i + 1).last() == s[i as int]);
            }
            i += 1;
        }
        proof {
            assert(s.take(n as int) =~= s);
        }
        relay
    }

    /// Plan the relay of a newly accepted transaction: every registered
    /// agent receives it — but only once the node is established.
    pub fn on_transaction_added(&self, transaction: &Transaction) -> (relay: Vec<
        (u64, Transaction),
    >)
        ensures
            self.sync_protocol.state.established ==> relay@ == tx_relay_plan(
                self.state.agents.entries_seq(),
                *transaction,
            ),
            !self.sync_protocol.state.established ==> relay@ == Seq::<(u64, Transaction)>::empty(),
    {
        // Transactions are not relayed before the node is synced up.
        if !self.sync_protocol.is_established() {
            return Vec::new();
        }
        self.relay_transaction_to_all(transaction)
    }

    /// Plan the retraction of a transaction that left the pool: every
    /// registered agent is told, under the same established-gate as
    /// announcements — an unestablished node advertises nothing of its view
    /// of the pool.
    pub fn on_transaction_removed(&self, transaction: &Transaction) -> (relay: Vec<
        (u64, Transaction),
    >)
        ensures
            self.sync_protocol.state.established ==> relay@ == tx_relay_plan(
                self.state.agents.entries_seq(),
                *transaction,
            ),
            !self.sync_protocol.state.established ==> relay@ == Seq::<(u64, Transaction)>::empty(),
    {
        if !self.sync_protocol.is_established() {
            return Vec::new();
        }
        self.relay_transaction_to_all(transaction)
    }

    #[verifier::loop_isolation(false)]
    fn relay_transaction_to_all(&self, transaction: &Transaction) -> (relay: Vec<
        (u64, Transaction),
    >)
        ensures
            relay@ == tx_relay_plan(self.state.agents.entries_seq(), *transaction),
    {
        let ghost s = self.state.agents.entries_seq();
        let mut relay: Vec<(u64, Transaction)> = Vec::new();
        let n = self.state.agents.len();
        let mut i: usize = 0;
        while i < n
            invariant
                i <= n,
                relay@.len() == i,
                forall|j: int| 0 <= j < i ==> relay@[j] == (s[j].0, *transaction),
            decreases n - i,
        {
            let id = self.state.agents.key_at(i);
            relay.push((id, *transaction));
            i += 1;
        }
        proof {
            assert(relay@ =~= tx_relay_plan(s, *transaction));
        }
        relay
    }

    /// React to one pool event: an added or restored transaction is
    /// announced, an evicted or mined one is retracted — both only once the
    /// node is established.
    pub fn handle_mempool_event(&self, event: &MempoolEvent) -> (r: MempoolRelay)
        ensures
            ({
                let s = self.state.agents.entries_seq();
                let established = self.sync_protocol.state.established;
                match *event {
                    MempoolEvent::TransactionAdded(_, tx) => r matches MempoolRelay::Announce(plan)
                        && plan@ == if established {
                        tx_relay_plan(s, tx)
                    } else {
                        Seq::<(u64, Transaction)>::empty()
                    },
                    MempoolEvent::TransactionRestored(tx) => r matches MempoolRelay::Announce(plan)
                        && plan@ == if established {
                        tx_relay_plan(s, tx)
                    } else {
                        Seq::<(u64, Transaction)>::empty()
                    },
                    MempoolEvent::TransactionEvicted(tx) => r matches MempoolRelay::Retract(plan)
                        && plan@ == if established {
                        tx_relay_plan(s, tx)
                    } else {
                        Seq::<(u64, Transaction)>::empty()
                    },
                    MempoolEvent::TransactionMined(tx) => r matches MempoolRelay::Retract(plan)
                        && plan@ == if established {
                        tx_relay_plan(s, tx)
                    } else {
                        Seq::<(u64, Transaction)>::empty()
                    },
                }
            }),
    {
        match event {
            MempoolEvent::TransactionAdded(_, transaction) => MempoolRelay::Announce(
                self.on_transaction_added(transaction),
            ),
            MempoolEvent::TransactionRestored(transaction) => MempoolRelay::Announce(
                self.on_transaction_added(transaction),
            ),
            MempoolEvent::TransactionEvicted(transaction) => MempoolRelay::Retract(
                self.on_transaction_removed(transaction),
            ),
            MempoolEvent::TransactionMined(transaction) => MempoolRelay::Retract(
                self.on_transaction_removed(transaction),
            ),
        }
    }
}

/// Mutating one agent in place preserves the registry's well-formedness,
/// provided the agent stayed well-formed and kept its peer.
proof fn lemma_registry_wf_after_value_update(prior: &ConsensusState, now: &ConsensusState, i: int)
    requires
        prior.wf(),
        0 <= i < prior.agents.entries_seq().len(),
        now.agents.entries_seq() == prior.agents.entries_seq().update(
            i,
            (prior.agents.entries_seq()[i].0, now.agents.entries_seq()[i].1),
        ),
        now.agents.entries_seq()[i].1.wf(),
        now.agents.entries_seq()[i].1.peer == prior.agents.entries_seq()[i].1.peer,
    ensures
        now.wf(),
{
    let s_old = prior.agents.entries_seq();
    let s_new = now.agents.entries_seq();
    assert forall|j: int| 0 <= j < s_new.len() implies (#[trigger] s_new[j]).0
        == s_new[j].1.peer.id && s_new[j].1.wf() by {
        if j != i {
            assert(s_new[j] == s_old[j]);
        }
    }
}

/// The adopted half of a rebranch, as bare blocks in branch order.
fn adopted_blocks(adopted: &Vec<(Blake2bHash, Block)>) -> (r: Vec<Block>)
    ensures
        r@ == adopted@.map_values(|p: (Blake2bHash, Block)| p.1),
{
    let mut out: Vec<Block> = Vec::new();
    let n = adopted.len();
    let mut i: usize = 0;
    while i < n
        invariant
            n == adopted@.len(),
            i <= n,
            out@.len() == i,
            forall|j: int| 0 <= j < i ==> out@[j] == adopted@[j].1,
        decreases n - i,
    {
        out.push(adopted[i].1);
        i += 1;
    }
    proof {
        assert(out@ =~= adopted@.map_values(|p: (Blake2bHash, Block)| p.1));
    }
    out
}

/// Append one agent's relay entries for every block, in order.
fn append_block_relays(out: &mut Vec<(u64, Block)>, id: u64, blocks: &Vec<Block>)
    ensures
        final(out)@ == old(out)@ + relay_to_agent(id, blocks@),
{
    let n = blocks.len();
    let mut i: usize = 0;
    while i < n
        invariant
            n == blocks@.len(),
            i <= n,
            out@.len() == old(out)@.len() + i,
            forall|j: int| 0 <= j < old(out)@.len() ==> out@[j] == old(out)@[j],
            forall|j: int|
                0 <= j < i ==> out@[old(out)@.len() + j] == (id, blocks@[j]),
        decreases n - i,
    {
        out.push((id, blocks[i]));
        i += 1;
    }
    proof {
        assert(out@ =~= old(out)@ + relay_to_agent(id, blocks@));
    }
}

} // verus!
