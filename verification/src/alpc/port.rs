//! ALPC port: a server endpoint with a fixed-depth FIFO message queue.
use vstd::prelude::*;
use crate::alpc::message::{AlpcInlineMessage, ALPC_INLINE_BYTES, lemma_holds_payload};

verus! {

/// Server-side port identifier (opaque).
#[derive(Clone, Copy, Debug, PartialEq, Eq, Structural, Hash)]
pub struct AlpcPortId(pub u64);

/// Hands out port identifiers in increasing order, starting at 1.
#[derive(Debug)]
pub struct AlpcPortIdAllocator {
    next: u64,
}

impl AlpcPortIdAllocator {
    /// The identifier the next allocation returns.
    pub closed spec fn next_id(&self) -> u64 {
        self.next
    }

    /// A fresh allocator whose first identifier is 1.
    pub fn new() -> (a: Self)
        ensures
            a.next_id() == 1,
    {
        AlpcPortIdAllocator { next: 1 }
    }

    /// Take the next identifier (the counter wraps like an atomic `fetch_add`).
    pub fn allocate(&mut self) -> (id: AlpcPortId)
        ensures
            id == AlpcPortId(old(self).next_id()),
            final(self).next_id() == old(self).next_id().wrapping_add(1),
    {
        let id = AlpcPortId(self.next);
        self.next = self.next.wrapping_add(1);
        id
    }
}

/// Depth of the per-port message queue.
pub const QUEUE_DEPTH: usize = 4;

/// Port with a bounded ring-buffer queue.
#[derive(Debug)]
pub struct AlpcPort {
    pub id: AlpcPortId,
    queue: [AlpcInlineMessage; QUEUE_DEPTH],
    head: usize,
    tail: usize,
    len: usize,
}

impl View for AlpcPort {
    type V = Seq<AlpcInlineMessage>;

    /// Queued messages, oldest first.
    closed spec fn view(&self) -> Seq<AlpcInlineMessage> {
        Seq::new(self.len as nat, |k: int| self.queue@[(self.head + k) % (QUEUE_DEPTH as int)])
    }
}

impl AlpcPort {
    /// This port's identifier.
    pub closed spec fn port_id(&self) -> AlpcPortId {
        self.id
    }

    /// Read this port's identifier.
    pub fn get_id(&self) -> (id: AlpcPortId)
        ensures
            id == self.port_id(),
    {
        self.id
    }

    /// Ring-buffer bookkeeping is consistent.
    pub closed spec fn wf(&self) -> bool {
        &&& self.head < QUEUE_DEPTH
        &&& self.len <= QUEUE_DEPTH
        &&& self.tail == (self.head + self.len) % (QUEUE_DEPTH as int)
    }

    /// A port with an empty queue and the next identifier from `ids`.
    pub fn new(ids: &mut AlpcPortIdAllocator) -> (p: Self)
        ensures
            p.wf(),
            p@ == Seq::<AlpcInlineMessage>::empty(),
            p.port_id() == AlpcPortId(old(ids).next_id()),
            final(ids).next_id() == old(ids).next_id().wrapping_add(1),
    {
        let id = ids.allocate();
        let p = AlpcPort {
            id,
            queue: [AlpcInlineMessage::empty(); QUEUE_DEPTH],
            head: 0,
            tail: 0,
            len: 0,
        };
        assert(p@ =~= Seq::<AlpcInlineMessage>::empty());
        p
    }

    /// Enqueue `payload`; fails when the queue is full or the payload is too long.
    pub fn try_send(&mut self, payload: &[u8]) -> (r: Result<(), ()>)
        requires
            old(self).wf(),
        ensures
            final(self).wf(),
            final(self).port_id() == old(self).port_id(),
            r is Err <==> (old(self)@.len() >= QUEUE_DEPTH || payload@.len() > ALPC_INLINE_BYTES),
            r is Err ==> final(self)@ == old(self)@,
            r is Ok ==> final(self)@.len() == old(self)@.len() + 1 && final(self)@.drop_last()
                == old(self)@ && final(self)@.last().holds(payload@),
    {
        if self.len >= QUEUE_DEPTH || payload.len() > ALPC_INLINE_BYTES {
            return Err(());
        }
        let msg = AlpcInlineMessage::from_payload(payload);
        let ghost s0 = self@;
        self.queue[self.tail] = msg;
        self.tail = (self.tail + 1) % QUEUE_DEPTH;
        self.len = self.len + 1;
        assert(self@.drop_last() =~= s0);
        Ok(())
    }

    /// Dequeue the oldest message; fails when the queue is empty.
    pub fn try_recv(&mut self) -> (r: Result<AlpcInlineMessage, ()>)
        requires
            old(self).wf(),
        ensures
            final(self).wf(),
            final(self).port_id() == old(self).port_id(),
            r is Err <==> old(self)@.len() == 0,
            r is Err ==> final(self)@ == old(self)@,
            r is Ok ==> r->Ok_0 == old(self)@[0] && final(self)@ == old(self)@.drop_first(),
    {
        if self.len == 0 {
            return Err(());
        }
        let ghost s0 = self@;
        let msg = self.queue[self.head];
        self.head = (self.head + 1) % QUEUE_DEPTH;
        self.len = self.len - 1;
        assert(self@ =~= s0.drop_first());
        Ok(msg)
    }
}

/// First in, first out: after a send that a port accepted (`before` is its queue before
/// the send, `after` the queue after it), the next receive gives the payload just sent
/// when the queue was empty, and otherwise the oldest message queued before the send,
/// leaving the sent payload at the back of the queue.
pub proof fn lemma_send_then_recv(
    before: Seq<AlpcInlineMessage>,
    after: Seq<AlpcInlineMessage>,
    payload: Seq<u8>,
)
    requires
        after.len() == before.len() + 1,
        after.drop_last() == before,
        after.last().holds(payload),
    ensures
        before.len() == 0 ==> after[0].payload() == payload,
        before.len() > 0 ==> after[0] == before[0] && after.drop_first().drop_last()
            == before.drop_first() && after.drop_first().last().payload() == payload,
{
    lemma_holds_payload(after.last(), payload);
    if before.len() > 0 {
        assert(after[0] == after.drop_last()[0]);
        assert(after.drop_first().drop_last() =~= before.drop_first());
    }
}

} // verus!
