//! The per-peer gateway: it allocates request identifiers, keeps the
//! one-shot response cell for each outstanding block request, correlates
//! inbound block replies and timeouts back to those cells, and hands every
//! other inbound message to the fan-out table.

use vstd::prelude::*;
use crate::block::BlockComponents;
use crate::distributor::MessageDistributor;
use crate::hashes::Blake2bHash;
use crate::id_map::IdMap;
use crate::messages::{Message, Objects, RequestBlocksFilter, RequestBlocksMessage, RequestResponse};
use crate::messages::MAX_LOCATORS;
use crate::response::{Response, ResponseError};
use crate::messages::MessageType;
use crate::subscription::{Subscription, SubscriptionType};

verus! {

/// The response cell of one outstanding block request.
pub type BlockResponse = Response<Objects<BlockComponents>>;

/// A connected peer as this subsystem reads it: an identity to key the
/// registry by, and whether the peer can serve complete block data.
#[derive(Clone, Copy, Debug, PartialEq, Eq, Structural)]
pub struct Peer {
    pub id: u64,
    pub full_node: bool,
}

/// The identifier the counter hands out after `id`: one more, wrapping at
/// the integer width. Identifiers need only be unique among a peer's
/// currently pending requests.
pub open spec fn next_identifier(id: u32) -> u32 {
    if id == u32::MAX {
        0
    } else {
        (id + 1) as u32
    }
}

/// An agent's bookkeeping: the request-identifier counter, the response
/// cell of each pending block request keyed by its identifier, and what
/// this peer asked to be announced.
pub struct ConsensusAgentState {
    pub current_request_identifier: u32,
    pub block_responses: IdMap<BlockResponse>,
    pub local_subscription: Subscription,
}

impl ConsensusAgentState {
    /// Allocate the next request identifier.
    fn get_request_identifier(&mut self) -> (r: u32)
        ensures
            r == old(self).current_request_identifier,
            final(self).current_request_identifier == next_identifier(r),
            final(self).block_responses == old(self).block_responses,
            final(self).local_subscription == old(self).local_subscription,
    {
        let id = self.current_request_identifier;
        self.current_request_identifier = if id == u32::MAX {
            0
        } else {
            id + 1
        };
        id
    }
}

/// What `request_blocks` produced: the message to put on the wire to the
/// peer, and the identifier under which the reply (or its timeout) will be
/// correlated. `displaced` is the response slot of an earlier request whose
/// identifier the wrapped counter reached while it was still pending: it
/// comes back already resolved with a timeout error, never silently
/// dropped, so no identifier is ever reused while its slot is pending.
pub struct SentRequest {
    pub peer_id: u64,
    pub request_id: u32,
    pub message: Message,
    pub displaced: Option<BlockResponse>,
}

/// What became of one inbound message: a block reply was matched to its
/// pending request (or dropped as unknown), or the message goes to the
/// fan-out table's subscribers.
pub enum MessageDisposition {
    BlockReply(Option<BlockResponse>),
    Distribute(Message, Vec<u64>),
}

/// What a just-constructed agent for a peer looks like: nothing requested,
/// nothing pending, not synced, nothing subscribed, an empty fan-out table.
pub open spec fn fresh_agent(a: ConsensusAgent, peer: Peer) -> bool {
    &&& a.wf()
    &&& a.peer == peer
    &&& !a.synced
    &&& a.state.current_request_identifier == 0
    &&& a.pending() == Map::<u64, BlockResponse>::empty()
    &&& a.state.local_subscription.tx_announcements matches SubscriptionType::Nothing
    &&& a.state.local_subscription.tx_filter is None
    &&& a.state.local_subscription.block_announcements matches SubscriptionType::Nothing
    &&& a.msg_distributor.next_sink_id_spec() == 0
    &&& forall|ty: MessageType| #[trigger] a.msg_distributor.subscribers(ty) == Seq::<u64>::empty()
}

/// The per-peer request/response multiplexer.
pub struct ConsensusAgent {
    pub peer: Peer,
    pub state: ConsensusAgentState,
    pub synced: bool,
    pub msg_distributor: MessageDistributor,
}

impl ConsensusAgent {
    /// Every pending entry's cell still awaits its value — a slot only ever
    /// leaves the table resolved, so no identifier is reused while its slot
    /// is still pending — and the fan-out table's keys are unique.
    pub open spec fn wf(&self) -> bool {
        &&& self.state.block_responses.wf()
        &&& forall|k: u64|
            self.state.block_responses@.dom().contains(k) ==> (
            #[trigger] self.state.block_responses@[k]).is_pending()
        &&& self.msg_distributor.wf()
    }

    /// The pending table as a map from request identifier to its cell.
    pub open spec fn pending(&self) -> Map<u64, BlockResponse> {
        self.state.block_responses@
    }

    pub fn new(peer: Peer) -> (r: ConsensusAgent)
        ensures
            fresh_agent(r, peer),
    {
        ConsensusAgent {
            peer,
            state: ConsensusAgentState {
                current_request_identifier: 0,
                block_responses: IdMap::new(),
                local_subscription: Subscription::default(),
            },
            synced: false,
            msg_distributor: MessageDistributor::new(),
        }
    }

    /// Whether the sync algorithm considers this peer caught up. The flag
    /// is maintained by the sync protocol, not reported by the peer.
    pub fn synced(&self) -> (r: bool)
        ensures
            r == self.synced,
    {
        self.synced
    }

    pub fn set_synced(&mut self, synced: bool)
        ensures
            *final(self) == (ConsensusAgent { synced, ..*old(self) }),
    {
        self.synced = synced;
    }

    /// Start one block request: allocate the next identifier, store a fresh
    /// pending cell under it, and hand back the wire message carrying the
    /// locators, the block cap, the filter and that identifier. Should the
    /// wrapped counter reach an identifier whose slot is still pending, that
    /// stale slot is first resolved with a timeout error and handed back in
    /// `displaced`. The call never blocks; the reply arrives later through
    /// `on_blocks` or `on_timeout`.
    pub fn request_blocks(
        &mut self,
        locators: Vec<Blake2bHash>,
        max_blocks: u16,
        filter: RequestBlocksFilter,
    ) -> (r: SentRequest)
        requires
            old(self).wf(),
            locators@.len() <= MAX_LOCATORS,
        ensures
            final(self).wf(),
            final(self).peer == old(self).peer,
            final(self).synced == old(self).synced,
            final(self).msg_distributor == old(self).msg_distributor,
            final(self).state.local_subscription == old(self).state.local_subscription,
            r.peer_id == old(self).peer.id,
            r.request_id == old(self).state.current_request_identifier,
            final(self).state.current_request_identifier == next_identifier(r.request_id),
            final(self).pending().dom() == old(self).pending().dom().insert(r.request_id as u64),
            final(self).pending()[r.request_id as u64].is_pending(),
            forall|k: u64|
                k != r.request_id as u64 && old(self).pending().dom().contains(k) ==> final(self).pending()[k] == (#[trigger] old(self).pending()[k]),
            r.message matches Message::RequestBlocks(rr) && rr.msg.locators@ == locators@
                && rr.msg.max_blocks == max_blocks && rr.msg.filter == filter
                && rr.request_identifier == r.request_id,
            !old(self).pending().dom().contains(r.request_id as u64) ==> r.displaced is None,
            old(self).pending().dom().contains(r.request_id as u64) ==> (
            r.displaced matches Some(c) && c.is_resolved() && c.outcome() == Result::<
                Objects<BlockComponents>,
                ResponseError,
            >::Err(ResponseError::Timeout)),
    {
        let request_identifier = self.state.get_request_identifier();
        let message = RequestBlocksMessage::new(locators, max_blocks, filter, request_identifier);
        let displaced = match self.state.block_responses.remove(request_identifier as u64) {
            Some(mut stale) => {
                proof {
                    assert(stale == old(self).state.block_responses@[request_identifier as u64]);
                    assert(stale.is_pending());
                }
                stale.set(Err(ResponseError::Timeout));
                Some(stale)
            }
            None => None,
        };
        let cell: BlockResponse = Response::new();
        self.state.block_responses.insert(request_identifier as u64, cell);
        proof {
            assert(final(self).pending().dom() =~= old(self).pending().dom().insert(
                request_identifier as u64,
            ));
        }
        SentRequest { peer_id: self.peer.id, request_id: request_identifier, message, displaced }
    }

    /// Take in a block reply: the pending entry under the echoed identifier
    /// is removed and its cell resolved with the payload, in one step; a
    /// reply with no pending entry (already timed out, duplicate, or
    /// unknown) is dropped without a trace.
    pub fn on_blocks(&mut self, msg: RequestResponse<Objects<BlockComponents>>) -> (r: Option<
        BlockResponse,
    >)
        requires
            old(self).wf(),
        ensures
            final(self).wf(),
            final(self).peer == old(self).peer,
            final(self).synced == old(self).synced,
            final(self).msg_distributor == old(self).msg_distributor,
            final(self).state.current_request_identifier == old(self).state.current_request_identifier,
            final(self).state.local_subscription == old(self).state.local_subscription,
            final(self).pending() == old(self).pending().remove(msg.request_identifier as u64),
            old(self).pending().dom().contains(msg.request_identifier as u64) ==> (r matches Some(
                c,
            ) && c.is_resolved() && c.outcome() == Result::<Objects<BlockComponents>, ResponseError>::Ok(msg.msg)),
            !old(self).pending().dom().contains(msg.request_identifier as u64) ==> r is None,
    {
        let request_identifier = msg.request_identifier;
        match self.state.block_responses.remove(request_identifier as u64) {
            Some(mut cell) => {
                proof {
                    assert(cell == old(self).state.block_responses@[request_identifier as u64]);
                    assert(cell.is_pending());
                }
                cell.set(Ok(msg.msg));
                Some(cell)
            }
            None => None,
        }
    }

    /// Fire the timeout of one request: the pending entry is removed and
    /// its cell resolved with a timeout error, in one step, so the slot is
    /// never left removed yet unresolved, nor resolved twice. A timeout
    /// whose entry is gone (reply already arrived) is a no-op.
    pub fn on_timeout(&mut self, request_identifier: u32) -> (r: Option<BlockResponse>)
        requires
            old(self).wf(),
        ensures
            final(self).wf(),
            final(self).peer == old(self).peer,
            final(self).synced == old(self).synced,
            final(self).msg_distributor == old(self).msg_distributor,
            final(self).state.current_request_identifier == old(self).state.current_request_identifier,
            final(self).state.local_subscription == old(self).state.local_subscription,
            final(self).pending() == old(self).pending().remove(request_identifier as u64),
            old(self).pending().dom().contains(request_identifier as u64) ==> (r matches Some(c)
                && c.is_resolved() && c.outcome() == Result::<Objects<BlockComponents>, ResponseError>::Err(ResponseError::Timeout)),
            !old(self).pending().dom().contains(request_identifier as u64) ==> r is None,
    {
        match self.state.block_responses.remove(request_identifier as u64) {
            Some(mut cell) => {
                proof {
                    assert(cell == old(self).state.block_responses@[request_identifier as u64]);
                    assert(cell.is_pending());
                }
                cell.set(Err(ResponseError::Timeout));
                Some(cell)
            }
            None => None,
        }
    }

    /// Route one inbound message: a block reply is intercepted and matched
    /// against the pending table; every other message is handed out to the
    /// fan-out table's subscribers for its kind.
    pub fn on_message(&mut self, msg: Message) -> (d: MessageDisposition)
        requires
            old(self).wf(),
        ensures
            final(self).wf(),
            final(self).peer == old(self).peer,
            final(self).synced == old(self).synced,
            final(self).msg_distributor == old(self).msg_distributor,
            final(self).state.current_request_identifier == old(self).state.current_request_identifier,
            final(self).state.local_subscription == old(self).state.local_subscription,
            msg matches Message::Blocks(rr) ==> {
                &&& final(self).pending() == old(self).pending().remove(
                    rr.request_identifier as u64,
                )
                &&& d matches MessageDisposition::BlockReply(r)
                &&& (old(self).pending().dom().contains(rr.request_identifier as u64) ==> (
                r matches Some(c) && c.is_resolved() && c.outcome() == Result::<Objects<BlockComponents>, ResponseError>::Ok(rr.msg)))
                &&& (!old(self).pending().dom().contains(rr.request_identifier as u64)
                    ==> r is None)
            },
            !(msg matches Message::Blocks(_)) ==> {
                &&& final(self).pending() == old(self).pending()
                &&& d matches MessageDisposition::Distribute(m, plan) && m == msg && plan@ == old(self).msg_distributor.subscribers(msg.ty_spec())
            },
    {
        match msg {
            Message::Blocks(rr) => MessageDisposition::BlockReply(self.on_blocks(*rr)),
            other => {
                let plan = self.msg_distributor.notify(&other);
                MessageDisposition::Distribute(other, plan)
            }
        }
    }

    /// Tear the agent down on its peer's departure: every pending cell is
    /// resolved with a timeout error and handed back, so no outstanding
    /// request is left waiting forever on a peer that is gone.
    pub fn teardown(&mut self) -> (r: Vec<BlockResponse>)
        requires
            old(self).wf(),
        ensures
            final(self).wf(),
            final(self).peer == old(self).peer,
            final(self).synced == old(self).synced,
            final(self).pending() == Map::<u64, BlockResponse>::empty(),
            r@.len() == old(self).state.block_responses.len_spec(),
            forall|i: int|
                0 <= i < r@.len() ==> (#[trigger] r@[i]).is_resolved() && r@[i].outcome()
                    == Result::<Objects<BlockComponents>, ResponseError>::Err(
                    ResponseError::Timeout,
                ),
    {
        let ghost prior = *self;
        let mut drained = self.state.block_responses.drain();
        proof {
            assert forall|j: int| 0 <= j < drained@.len() implies (#[trigger] drained@[j]).1.is_pending() by {
                let k = drained@[j].0;
                prior.state.block_responses.lemma_index_of_unique(k, j);
                prior.state.block_responses.lemma_view_agrees(k);
            }
        }
        let mut out: Vec<BlockResponse> = Vec::new();
        let ghost total = drained@.len();
        while drained.len() > 0
            invariant
                drained@.len() + out@.len() == total,
                forall|j: int| 0 <= j < drained@.len() ==> (#[trigger] drained@[j]).1.is_pending(),
                forall|i: int|
                    0 <= i < out@.len() ==> (#[trigger] out@[i]).is_resolved() && out@[i].outcome()
                        == Result::<Objects<BlockComponents>, ResponseError>::Err(ResponseError::Timeout),
            decreases drained@.len(),
        {
            let ghost before_pop = drained@;
            let entry = drained.pop().unwrap();
            proof {
                assert(entry == before_pop[before_pop.len() - 1]);
                assert(entry.1.is_pending());
            }
            let mut cell = entry.1;
            cell.set(Err(ResponseError::Timeout));
            out.push(cell);
        }
        out
    }
}

/// The identifier the counter hands out on the k-th of a run of
/// consecutive requests that began when the counter held `start`.
pub open spec fn identifier_after(start: u32, k: nat) -> u32
    decreases k,
{
    if k == 0 {
        start
    } else {
        next_identifier(identifier_after(start, (k - 1) as nat))
    }
}

/// While no wraparound occurs, consecutive identifiers count plainly up.
pub proof fn lemma_identifier_after_no_wrap(start: u32, k: nat)
    requires
        start + k <= u32::MAX,
    ensures
        identifier_after(start, k) == start + k,
    decreases k,
{
    if k > 0 {
        lemma_identifier_after_no_wrap(start, (k - 1) as nat);
    }
}

/// Law: `n` consecutive `request_blocks` calls on one agent yield pairwise
/// distinct, strictly increasing request identifiers, wraparound aside.
/// Each call returns the counter and advances it to `next_identifier` of
/// it, so the k-th of the run returns `identifier_after(start, k)`; as
/// long as the run does not wrap the counter, later calls return strictly
/// larger identifiers.
pub proof fn lemma_request_identifiers_increase(start: u32, n: nat, i: nat, j: nat)
    requires
        i < j,
        j < n,
        start + n <= u32::MAX + 1,
    ensures
        identifier_after(start, i) < identifier_after(start, j),
{
    lemma_identifier_after_no_wrap(start, i);
    lemma_identifier_after_no_wrap(start, j);
}

} // verus!
