//! Dual-process ALPC path: two process ids and paired bounded queues, plus the kernel bounce
//! buffer used to stage payloads for another address space.
use vstd::prelude::*;
use crate::alpc::message::AlpcInlineMessage;
use crate::alpc::port::{AlpcPort, AlpcPortId, AlpcPortIdAllocator, QUEUE_DEPTH};

verus! {

/// Process identifier.
#[derive(Clone, Copy, Debug, PartialEq, Eq, Structural, Hash)]
pub struct ProcessId(pub u64);

/// Capacity of the cross-address-space bounce buffer.
pub const CROSS_AS_BOUNCE_CAP: usize = 4096;

/// Lowest non-canonical user address (start of the kernel half).
pub const USER_VA_LIMIT: u64 = 0x0000_8000_0000_0000;

/// Whether `va` lies in the canonical user half of the address space.
pub open spec fn user_canonical(va: u64) -> bool {
    va < USER_VA_LIMIT
}

/// Whether `va` may receive a copy into another process.
pub fn user_canonical_dest_va(va: u64) -> (ok: bool)
    ensures
        ok == user_canonical(va),
{
    va < USER_VA_LIMIT
}

/// Two-way mailbox between a designated server process and client process.
#[derive(Debug)]
pub struct AlpcDuplexLink {
    pub server_proc: ProcessId,
    pub client_proc: ProcessId,
    server_inbound: AlpcPort,
    client_inbound: AlpcPort,
}

impl AlpcDuplexLink {
    /// Both ports are well formed.
    pub closed spec fn wf(&self) -> bool {
        self.server_inbound.wf() && self.client_inbound.wf()
    }

    /// Messages waiting for the server, oldest first.
    pub closed spec fn server_queue(&self) -> Seq<AlpcInlineMessage> {
        self.server_inbound@
    }

    /// Messages waiting for the client, oldest first.
    pub closed spec fn client_queue(&self) -> Seq<AlpcInlineMessage> {
        self.client_inbound@
    }

    /// Identifier of the server's receive port.
    pub closed spec fn server_port(&self) -> AlpcPortId {
        self.server_inbound.port_id()
    }

    /// Identifier of the client's receive port.
    pub closed spec fn client_port(&self) -> AlpcPortId {
        self.client_inbound.port_id()
    }

    /// The server process, for use in contracts.
    pub closed spec fn server(&self) -> ProcessId {
        self.server_proc
    }

    /// The client process, for use in contracts.
    pub closed spec fn client(&self) -> ProcessId {
        self.client_proc
    }

    /// A link with two empty queues; the server port takes the first new identifier.
    pub fn new(ids: &mut AlpcPortIdAllocator, server_proc: ProcessId, client_proc: ProcessId) -> (l: Self)
        ensures
            l.wf(),
            l.server() == server_proc,
            l.client() == client_proc,
            l.server_queue() == Seq::<AlpcInlineMessage>::empty(),
            l.client_queue() == Seq::<AlpcInlineMessage>::empty(),
            l.server_port() == AlpcPortId(old(ids).next_id()),
            l.client_port() == AlpcPortId(old(ids).next_id().wrapping_add(1)),
            final(ids).next_id() == old(ids).next_id().wrapping_add(1).wrapping_add(1),
    {
        let server_inbound = AlpcPort::new(ids);
        let client_inbound = AlpcPort::new(ids);
        AlpcDuplexLink { server_proc, client_proc, server_inbound, client_inbound }
    }

    /// Read the identifier of the server's receive port.
    pub fn server_port_id(&self) -> (id: AlpcPortId)
        ensures
            id == self.server_port(),
    {
        self.server_inbound.get_id()
    }

    /// Read the identifier of the client's receive port.
    pub fn client_side_port_id(&self) -> (id: AlpcPortId)
        ensures
            id == self.client_port(),
    {
        self.client_inbound.get_id()
    }

    /// Client sends to the server's receive queue; only the client process may post.
    pub fn post_from_client(&mut self, from: ProcessId, payload: &[u8]) -> (r: Result<(), ()>)
        requires
            old(self).wf(),
        ensures
            final(self).wf(),
            final(self).server() == old(self).server(),
            final(self).client() == old(self).client(),
            final(self).server_port() == old(self).server_port(),
            final(self).client_port() == old(self).client_port(),
            final(self).client_queue() == old(self).client_queue(),
            r is Err <==> (from != old(self).client() || old(self).server_queue().len() >= QUEUE_DEPTH
                || payload@.len() > crate::alpc::message::ALPC_INLINE_BYTES),
            r is Err ==> final(self).server_queue() == old(self).server_queue(),
            r is Ok ==> final(self).server_queue().drop_last() == old(self).server_queue()
                && final(self).server_queue().len() == old(self).server_queue().len() + 1
                && final(self).server_queue().last().holds(payload@),
    {
        if from != self.client_proc {
            return Err(());
        }
        self.server_inbound.try_send(payload)
    }

    /// Server sends to the client's receive queue; only the server process may post.
    pub fn post_from_server(&mut self, from: ProcessId, payload: &[u8]) -> (r: Result<(), ()>)
        requires
            old(self).wf(),
        ensures
            final(self).wf(),
            final(self).server() == old(self).server(),
            final(self).client() == old(self).client(),
            final(self).server_port() == old(self).server_port(),
            final(self).client_port() == old(self).client_port(),
            final(self).server_queue() == old(self).server_queue(),
            r is Err <==> (from != old(self).server() || old(self).client_queue().len() >= QUEUE_DEPTH
                || payload@.len() > crate::alpc::message::ALPC_INLINE_BYTES),
            r is Err ==> final(self).client_queue() == old(self).client_queue(),
            r is Ok ==> final(self).client_queue().drop_last() == old(self).client_queue()
                && final(self).client_queue().len() == old(self).client_queue().len() + 1
                && final(self).client_queue().last().holds(payload@),
    {
        if from != self.server_proc {
            return Err(());
        }
        self.client_inbound.try_send(payload)
    }

    /// Server takes the oldest message addressed to it.
    pub fn recv_at_server(&mut self) -> (r: Result<AlpcInlineMessage, ()>)
        requires
            old(self).wf(),
        ensures
            final(self).wf(),
            final(self).server() == old(self).server(),
            final(self).client() == old(self).client(),
            final(self).server_port() == old(self).server_port(),
            final(self).client_port() == old(self).client_port(),
            final(self).client_queue() == old(self).client_queue(),
            r is Err <==> old(self).server_queue().len() == 0,
            r is Err ==> final(self).server_queue() == old(self).server_queue(),
            r is Ok ==> r->Ok_0 == old(self).server_queue()[0] && final(self).server_queue()
                == old(self).server_queue().drop_first(),
    {
        self.server_inbound.try_recv()
    }

    /// Client takes the oldest message addressed to it.
    pub fn recv_at_client(&mut self) -> (r: Result<AlpcInlineMessage, ()>)
        requires
            old(self).wf(),
        ensures
            final(self).wf(),
            final(self).server() == old(self).server(),
            final(self).client() == old(self).client(),
            final(self).server_port() == old(self).server_port(),
            final(self).client_port() == old(self).client_port(),
            final(self).server_queue() == old(self).server_queue(),
            r is Err <==> old(self).client_queue().len() == 0,
            r is Err ==> final(self).client_queue() == old(self).client_queue(),
            r is Ok ==> r->Ok_0 == old(self).client_queue()[0] && final(self).client_queue()
                == old(self).client_queue().drop_first(),
    {
        self.client_inbound.try_recv()
    }
}

/// Kernel bounce buffer that stages a payload bound for another address space.
#[derive(Debug)]
pub struct CrossAsBounce {
    buf: Vec<u8>,
    len: u32,
}

/// Outcome of an accepted post into a remote address space: the CPU must switch to `cr3`
/// and copy the staged bytes to `dest`.
#[derive(Clone, Copy, Debug, PartialEq, Eq, Structural)]
pub struct RemoteCopyPlan {
    pub cr3: u64,
    pub dest: u64,
    pub len: usize,
}

impl CrossAsBounce {
    /// Buffer bookkeeping is consistent.
    pub closed spec fn wf(&self) -> bool {
        &&& self.buf@.len() == CROSS_AS_BOUNCE_CAP
        &&& self.len as usize <= CROSS_AS_BOUNCE_CAP
    }

    /// The bytes of the last successful post.
    pub closed spec fn staged(&self) -> Seq<u8> {
        self.buf@.take(self.len as int)
    }

    /// An empty bounce buffer.
    pub fn new() -> (b: Self)
        ensures
            b.wf(),
            b.staged() == Seq::<u8>::empty(),
    {
        let mut buf: Vec<u8> = Vec::new();
        let mut i: usize = 0;
        while i < CROSS_AS_BOUNCE_CAP
            invariant
                0 <= i <= CROSS_AS_BOUNCE_CAP,
                buf@.len() == i,
            decreases CROSS_AS_BOUNCE_CAP - i,
        {
            buf.push(0u8);
            i = i + 1;
        }
        let b = CrossAsBounce { buf, len: 0 };
        assert(b.staged() =~= Seq::<u8>::empty());
        b
    }

    /// Copy `src` into the front of the buffer; the rest is left as it was.
    fn stage(&mut self, src: &[u8])
        requires
            old(self).wf(),
            src@.len() <= CROSS_AS_BOUNCE_CAP,
        ensures
            final(self).wf(),
            final(self).len == old(self).len,
            final(self).buf@.take(src@.len() as int) == src@,
    {
        let n = src.len();
        let mut i: usize = 0;
        while i < n
            invariant
                0 <= i <= n,
                n == src@.len(),
                n <= CROSS_AS_BOUNCE_CAP,
                self.buf@.len() == CROSS_AS_BOUNCE_CAP,
                self.len == old(self).len,
                forall|k: int| 0 <= k < i ==> self.buf@[k] == src@[k],
            decreases n - i,
        {
            self.buf.set(i, src[i]);
            i = i + 1;
        }
        assert(self.buf@.take(n as int) =~= src@);
    }

    /// Stage `src` for the address space `target_cr3`.
    ///
    /// `target_cr3 == 0` (the current / kernel space) is always accepted; any other value is
    /// accepted only when it equals `running_cr3`, the CR3 the CPU reports (`None` where it
    /// cannot be read). An empty `src` clears the staged payload.
    pub fn post_cross_address_space(&mut self, target_cr3: u64, running_cr3: Option<u64>, src: &[u8]) -> (r: Result<(), ()>)
        requires
            old(self).wf(),
        ensures
            final(self).wf(),
            r is Ok <==> (src@.len() == 0 || (src@.len() <= CROSS_AS_BOUNCE_CAP && (target_cr3 == 0
                || running_cr3 == Some(target_cr3)))),
            r is Ok ==> final(self).staged() == src@,
            r is Err ==> final(self).staged() == old(self).staged(),
    {
        if src.len() == 0 {
            self.len = 0;
            assert(self.staged() =~= src@);
            return Ok(());
        }
        if src.len() > CROSS_AS_BOUNCE_CAP {
            return Err(());
        }
        let ok = if target_cr3 == 0 {
            true
        } else {
            match running_cr3 {
                Some(c) => c == target_cr3,
                None => false,
            }
        };
        if !ok {
            return Err(());
        }
        self.stage(src);
        self.len = src.len() as u32;
        Ok(())
    }

    /// Length of the last successful post (diagnostics).
    pub fn cross_as_bounce_len_for_test(&self) -> (n: usize)
        requires
            self.wf(),
        ensures
            n == self.staged().len(),
    {
        self.len as usize
    }

    /// Copy as much of the staged payload as fits into `out`; returns the count copied
    /// (diagnostics).
    pub fn cross_as_bounce_bytes_for_test(&self, out: &mut [u8]) -> (n: usize)
        requires
            self.wf(),
        ensures
            n == if self.staged().len() < old(out)@.len() { self.staged().len() } else { old(out)@.len() as nat },
            final(out)@.len() == old(out)@.len(),
            final(out)@.take(n as int) == self.staged().take(n as int),
            final(out)@.skip(n as int) == old(out)@.skip(n as int),
    {
        let staged = self.len as usize;
        let n = if staged < out.len() { staged } else { out.len() };
        let mut i: usize = 0;
        while i < n
            invariant
                0 <= i <= n,
                n <= out@.len(),
                n <= self.len,
                self.wf(),
                out@.len() == old(out)@.len(),
                forall|k: int| 0 <= k < i ==> out@[k] == self.buf@[k],
                forall|k: int| n <= k < out@.len() ==> out@[k] == old(out)@[k],
            decreases n - i,
        {
            out[i] = self.buf[i];
            i = i + 1;
        }
        assert(out@.take(n as int) =~= self.staged().take(n as int));
        assert(out@.skip(n as int) =~= old(out)@.skip(n as int));
        n
    }
}

/// Decide a copy of `src` into `remote_user_dest` under `remote_cr3`.
///
/// Where the CPU cannot switch address spaces (`can_switch_cr3` false) the copy is unavailable
/// and every request fails. Otherwise an empty `src` needs no copy (`Ok(None)`), and a
/// non-empty one must fit the bounce buffer, with a non-zero `remote_cr3` and a canonical user
/// destination.
pub fn post_cross_address_space_into_remote_va(
    remote_cr3: u64,
    remote_user_dest: u64,
    src: &[u8],
    can_switch_cr3: bool,
) -> (r: Result<Option<RemoteCopyPlan>, ()>)
    ensures
        !can_switch_cr3 ==> r == Err::<Option<RemoteCopyPlan>, ()>(()),
        can_switch_cr3 && src@.len() == 0 ==> r == Ok::<Option<RemoteCopyPlan>, ()>(None),
        can_switch_cr3 && src@.len() > 0 ==> (r is Ok <==> (src@.len() <= CROSS_AS_BOUNCE_CAP
            && remote_cr3 != 0 && user_canonical(remote_user_dest))),
        (r matches Ok(Some(p)) ==> p == (RemoteCopyPlan {
            cr3: remote_cr3,
            dest: remote_user_dest,
            len: src@.len() as usize,
        })),
{
    if !can_switch_cr3 {
        return Err(());
    }
    if src.len() == 0 {
        return Ok(None);
    }
    if src.len() > CROSS_AS_BOUNCE_CAP || remote_cr3 == 0 {
        return Err(());
    }
    if !user_canonical_dest_va(remote_user_dest) {
        return Err(());
    }
    Ok(Some(RemoteCopyPlan { cr3: remote_cr3, dest: remote_user_dest, len: src.len() }))
}

} // verus!
