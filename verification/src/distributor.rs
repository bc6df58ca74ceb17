//! Per-peer fan-out of inbound messages: subscribers register interest in
//! message kinds and are handed an opaque sink identifier; for each inbound
//! message the distributor says, in subscription order, which sinks receive
//! it, and sinks whose delivery failed are dropped from the table.

use vstd::prelude::*;
use crate::id_map::IdMap;
use crate::messages::{Message, MessageType};

verus! {

/// A stable key for each message kind, under which the fan-out table files
/// its subscribers.
pub open spec fn type_code_spec(ty: MessageType) -> u64 {
    match ty {
        MessageType::GetBlocks => 0,
        MessageType::RequestBlocks => 1,
        MessageType::Blocks => 2,
    }
}

fn type_code(ty: MessageType) -> (r: u64)
    ensures
        r == type_code_spec(ty),
{
    match ty {
        MessageType::GetBlocks => 0,
        MessageType::RequestBlocks => 1,
        MessageType::Blocks => 2,
    }
}

/// The subscribers left after dropping those whose delivery failed,
/// in their original order.
pub open spec fn keep_delivered(sinks: Seq<u64>, failed: Seq<bool>) -> Seq<u64>
    decreases sinks.len(),
{
    if sinks.len() == 0 {
        Seq::empty()
    } else {
        let rest = keep_delivered(sinks.drop_last(), failed.drop_last());
        if failed.last() {
            rest
        } else {
            rest.push(sinks.last())
        }
    }
}

/// How often a kind occurs in a run of message kinds.
pub open spec fn occurrences(s: Seq<MessageType>, ty: MessageType) -> nat
    decreases s.len(),
{
    if s.len() == 0 {
        0
    } else {
        occurrences(s.drop_last(), ty) + if s.last() == ty {
            1nat
        } else {
            0nat
        }
    }
}

/// One sink identifier, listed `n` times over.
pub open spec fn repeated(sink: u64, n: nat) -> Seq<u64> {
    Seq::new(n, |i: int| sink)
}

/// The fan-out table: for each message kind, the sinks that asked for it,
/// oldest subscription first. A sink is named by an identifier this
/// distributor hands out; what a sink identifier is wired to is its
/// owner's business.
pub struct MessageDistributor {
    sinks: IdMap<Vec<u64>>,
    next_sink_id: u64,
}

impl MessageDistributor {
    pub closed spec fn wf(&self) -> bool {
        self.sinks.wf()
    }

    pub closed spec fn next_sink_id_spec(&self) -> u64 {
        self.next_sink_id
    }

    /// Who gets a message of this kind, in subscription order.
    pub closed spec fn subscribers(&self, ty: MessageType) -> Seq<u64> {
        if self.sinks@.dom().contains(type_code_spec(ty)) {
            self.sinks@[type_code_spec(ty)]@
        } else {
            Seq::empty()
        }
    }

    pub fn new() -> (r: MessageDistributor)
        ensures
            r.wf(),
            r.next_sink_id_spec() == 0,
            forall|ty: MessageType| #[trigger] r.subscribers(ty) == Seq::<u64>::empty(),
    {
        MessageDistributor { sinks: IdMap::new(), next_sink_id: 0 }
    }

    /// Register a new sink for the given message kinds and hand its
    /// identifier back: it joins the end of each kind's subscriber list,
    /// once per time the kind was named (naming a kind twice delivers each
    /// message of that kind to the sink twice).
    #[verifier::loop_isolation(false)]
    pub fn subscribe(&mut self, msg_types: &Vec<MessageType>) -> (sink: u64)
        requires
            old(self).wf(),
            old(self).next_sink_id_spec() < u64::MAX,
        ensures
            final(self).wf(),
            sink == old(self).next_sink_id_spec(),
            final(self).next_sink_id_spec() == old(self).next_sink_id_spec() + 1,
            forall|ty: MessageType| #[trigger] final(self).subscribers(ty) == old(
                self,
            ).subscribers(ty) + repeated(sink, occurrences(msg_types@, ty)),
    {
        let sink = self.next_sink_id;
        self.next_sink_id = self.next_sink_id + 1;
        let ghost prior = *self;
        let n = msg_types.len();
        let mut i: usize = 0;
        while i < n
            invariant
                i <= n,
                self.wf(),
                self.next_sink_id == prior.next_sink_id,
                forall|ty: MessageType| #[trigger] self.subscribers(ty) == prior.subscribers(ty)
                    + repeated(sink, occurrences(msg_types@.take(i as int), ty)),
            decreases n - i,
        {
            let ghost before = *self;
            let ty = msg_types[i];
            let code = type_code(ty);
            let mut list = match self.sinks.remove(code) {
                Some(list) => list,
                None => Vec::new(),
            };
            list.push(sink);
            self.sinks.insert(code, list);
            proof {
                assert(msg_types@.take(i + 1).drop_last() =~= msg_types@.take(i as int));
                assert(msg_types@.take(i + 1).last() == msg_types@[i as int]);
                assert(self.subscribers(ty) =~= before.subscribers(ty).push(sink));
                assert forall|ty2: MessageType| #[trigger] self.subscribers(ty2)
                    == prior.subscribers(ty2) + repeated(
                    sink,
                    occurrences(msg_types@.take(i + 1), ty2),
                ) by {
                    if ty2 == ty {
                        assert(occurrences(msg_types@.take(i + 1), ty2) == occurrences(
                            msg_types@.take(i as int),
                            ty2,
                        ) + 1);
                        assert(self.subscribers(ty2) =~= prior.subscribers(ty2) + repeated(
                            sink,
                            occurrences(msg_types@.take(i + 1), ty2),
                        ));
                    } else {
                        assert(type_code_spec(ty2) != type_code_spec(ty));
                        assert(self.subscribers(ty2) == before.subscribers(ty2));
                        assert(occurrences(msg_types@.take(i + 1), ty2) == occurrences(
                            msg_types@.take(i as int),
                            ty2,
                        ));
                    }
                }
            }
            i += 1;
        }
        proof {
            assert(msg_types@.take(n as int) =~= msg_types@);
        }
        sink
    }

    /// The delivery plan for a message: every subscriber of its kind, in
    /// subscription order. Performing the deliveries is the caller's work.
    pub fn notify(&self, msg: &Message) -> (plan: Vec<u64>)
        requires
            self.wf(),
        ensures
            plan@ == self.subscribers(msg.ty_spec()),
    {
        let code = type_code(msg.ty());
        match self.sinks.get(code) {
            Some(list) => copy_sinks(list),
            None => Vec::new(),
        }
    }

    /// Drop the subscribers of one kind whose delivery failed, keeping the
    /// rest in order. `failed` reports, for each entry of the delivery
    /// plan, whether its send came back in error.
    pub fn notify_and_cleanup(&mut self, ty: MessageType, failed: &Vec<bool>)
        requires
            old(self).wf(),
            failed@.len() == old(self).subscribers(ty).len(),
        ensures
            final(self).wf(),
            final(self).next_sink_id_spec() == old(self).next_sink_id_spec(),
            final(self).subscribers(ty) == keep_delivered(old(self).subscribers(ty), failed@),
            forall|ty2: MessageType|
                type_code_spec(ty2) != type_code_spec(ty) ==> #[trigger] final(self).subscribers(
                    ty2,
                ) == old(self).subscribers(ty2),
    {
        let code = type_code(ty);
        match self.sinks.remove(code) {
            Some(list) => {
                let kept = filter_delivered(&list, failed);
                self.sinks.insert(code, kept);
            }
            None => {
                proof {
                    assert(old(self).subscribers(ty) == Seq::<u64>::empty());
                    assert(keep_delivered(Seq::<u64>::empty(), failed@) == Seq::<u64>::empty());
                }
            }
        }
    }
}

fn copy_sinks(list: &Vec<u64>) -> (r: Vec<u64>)
    ensures
        r@ == list@,
{
    let mut out: Vec<u64> = Vec::new();
    let n = list.len();
    let mut i: usize = 0;
    while i < n
        invariant
            n == list@.len(),
            i <= n,
            out@ == list@.take(i as int),
        decreases n - i,
    {
        out.push(list[i]);
        proof {
            assert(out@ =~= list@.take(i + 1));
        }
        i += 1;
    }
    proof {
        assert(list@.take(n as int) =~= list@);
    }
    out
}

fn filter_delivered(list: &Vec<u64>, failed: &Vec<bool>) -> (r: Vec<u64>)
    requires
        failed@.len() == list@.len(),
    ensures
        r@ == keep_delivered(list@, failed@),
{
    let mut out: Vec<u64> = Vec::new();
    let n = list.len();
    let mut i: usize = 0;
    while i < n
        invariant
            n == list@.len(),
            failed@.len() == list@.len(),
            i <= n,
            out@ == keep_delivered(list@.take(i as int), failed@.take(i as int)),
        decreases n - i,
    {
        if !failed[i] {
            out.push(list[i]);
        }
        proof {
            assert(list@.take(i + 1).drop_last() == list@.take(i as int));
            assert(failed@.take(i + 1).drop_last() == failed@.take(i as int));
            assert(list@.take(i + 1).last() == list@[i as int]);
            assert(failed@.take(i + 1).last() == failed@[i as int]);
        }
        i += 1;
    }
    proof {
        assert(list@.take(n as int) =~= list@);
        assert(failed@.take(n as int) =~= failed@);
    }
    out
}

} // verus!
