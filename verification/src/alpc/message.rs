//! ALPC message envelope with a small inline payload.
use vstd::prelude::*;

verus! {

/// Fixed inline payload capacity of one message.
pub const ALPC_INLINE_BYTES: usize = 128;

/// One queued message: `len` payload bytes at the front of `data`.
#[derive(Clone, Copy, Debug)]
pub struct AlpcInlineMessage {
    pub len: u32,
    pub _pad: u32,
    pub data: [u8; ALPC_INLINE_BYTES],
}

/// `n` zero bytes.
pub open spec fn zeros(n: nat) -> Seq<u8> {
    Seq::new(n, |i: int| 0u8)
}

impl AlpcInlineMessage {
    /// The payload carried by this message.
    pub open spec fn payload(&self) -> Seq<u8> {
        self.data@.take(self.len as int)
    }

    /// `m` is the message built from `payload`: its length, the payload, then zero fill.
    pub open spec fn holds(&self, payload: Seq<u8>) -> bool {
        &&& payload.len() <= ALPC_INLINE_BYTES
        &&& self.len as int == payload.len()
        &&& self._pad == 0
        &&& self.data@ == payload + zeros((ALPC_INLINE_BYTES - payload.len()) as nat)
    }

    /// An empty message (no payload, zeroed buffer).
    pub fn empty() -> (m: Self)
        ensures
            m.holds(Seq::<u8>::empty()),
    {
        let m = AlpcInlineMessage { len: 0, _pad: 0, data: [0u8; ALPC_INLINE_BYTES] };
        assert(m.data@ =~= Seq::<u8>::empty() + zeros(ALPC_INLINE_BYTES as nat));
        m
    }

    /// The message that carries `payload` (at most `ALPC_INLINE_BYTES` bytes).
    pub fn from_payload(payload: &[u8]) -> (m: Self)
        requires
            payload@.len() <= ALPC_INLINE_BYTES,
        ensures
            m.holds(payload@),
            m.payload() == payload@,
    {
        let mut m = AlpcInlineMessage::empty();
        let n = payload.len();
        let mut i: usize = 0;
        while i < n
            invariant
                0 <= i <= n,
                n == payload@.len(),
                n <= ALPC_INLINE_BYTES,
                m.len == 0,
                m._pad == 0,
                forall|k: int| 0 <= k < i ==> m.data@[k] == payload@[k],
                forall|k: int| i <= k < ALPC_INLINE_BYTES ==> m.data@[k] == 0u8,
            decreases n - i,
        {
            m.data[i] = payload[i];
            i = i + 1;
        }
        m.len = n as u32;
        assert(m.data@ =~= payload@ + zeros((ALPC_INLINE_BYTES - n) as nat));
        assert(m.payload() =~= payload@);
        m
    }
}

/// A message built from a payload gives exactly that payload back to its receiver.
pub proof fn lemma_holds_payload(m: AlpcInlineMessage, payload: Seq<u8>)
    requires
        m.holds(payload),
    ensures
        m.payload() == payload,
{
    assert(m.payload() =~= payload);
}

} // verus!
