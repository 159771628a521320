//! Synthetic connection: one instance per simulated client. A connection owns
//! a slot table of in-flight request headers, stamps and stores a decoded
//! request on write, hands the backend a submission description, and converts
//! out-of-order completions into blocking-style reads through the completion
//! registry.

use crate::codec::{spec_decode, spec_encode, PacketHeader};
use crate::registry::{CompletionRegistry, MAX_CONNS};
use vstd::prelude::*;

verus! {

/// Tokens carry a connection id and a slot handle in one integer:
/// `conn_id * TOKEN_BASE + handle`, so a handle must stay below this base.
pub const TOKEN_BASE: u64 = 0x1000000000000;

/// The operation status a backend completion reports. Any other status value
/// at the boundary is a contract violation and never reaches this type.
#[derive(Clone, Copy, Debug, PartialEq, Eq, Structural)]
pub enum IoStatus {
    Okay,
    Failed,
}

/// What a connection asks the backend to do for one request: a read or write
/// of one logical block, correlated by an opaque integer token.
#[derive(Clone, Copy, Debug, PartialEq, Eq, Structural)]
pub struct SubmitAction {
    pub is_write: bool,
    pub lba: u64,
    pub token: u64,
}

/// One step of the blocking-read protocol: a completed request's re-encoded
/// header, end-of-stream after shutdown, or nothing yet (the caller should
/// yield briefly and retry).
pub enum ReadStep {
    Data(Vec<u8>),
    Eof,
    WouldBlock,
}

/// Hands out connection ids from a bounded counter, so at most `MAX_CONNS`
/// connections are live at once; a released id becomes available again.
pub struct ConnIdAllocator {
    next_id: u16,
}

impl ConnIdAllocator {
    /// The number of ids currently handed out.
    pub closed spec fn in_use(&self) -> u16 {
        self.next_id
    }

    /// A fresh allocator with no id handed out.
    pub fn new() -> (r: ConnIdAllocator)
        ensures
            r.in_use() == 0,
    {
        ConnIdAllocator { next_id: 0 }
    }

    /// Hands out the next free connection id.
    pub fn acquire(&mut self) -> (r: u16)
        requires
            old(self).in_use() < MAX_CONNS,
        ensures
            r == old(self).in_use(),
            final(self).in_use() == old(self).in_use() + 1,
    {
        let id = self.next_id;
        self.next_id = self.next_id + 1;
        id
    }

    /// Returns one id to the pool.
    pub fn release(&mut self)
        requires
            old(self).in_use() > 0,
        ensures
            final(self).in_use() == old(self).in_use() - 1,
    {
        self.next_id = self.next_id - 1;
    }
}

/// Builds the integer token for a (connection id, handle) pair.
pub fn encode_token(conn_id: u16, handle: u64) -> (r: u64)
    requires
        handle < TOKEN_BASE,
    ensures
        r == conn_id as u64 * TOKEN_BASE + handle,
{
    (conn_id as u64) * TOKEN_BASE + handle
}

/// Splits a token back into its (connection id, handle) pair.
pub fn decode_token(token: u64) -> (r: (u16, u64))
    ensures
        r.0 == token / TOKEN_BASE,
        r.1 == token % TOKEN_BASE,
{
    proof {
        assert(token / TOKEN_BASE < 0x10000) by (nonlinear_arith)
            requires token <= u64::MAX;
    }
    ((token / TOKEN_BASE) as u16, token % TOKEN_BASE)
}

/// A token decodes back to exactly the pair it was built from.
pub proof fn lemma_token_round_trip(conn_id: u16, handle: u64)
    requires
        handle < TOKEN_BASE,
    ensures
        (conn_id as int * TOKEN_BASE as int + handle as int) / (TOKEN_BASE as int)
            == conn_id as int,
        (conn_id as int * TOKEN_BASE as int + handle as int) % (TOKEN_BASE as int)
            == handle as int,
{
    let c = conn_id as int;
    let h = handle as int;
    let b = TOKEN_BASE as int;
    assert((c * b + h) / b == c && (c * b + h) % b == h) by (nonlinear_arith)
        requires 0 <= h < b, 0 <= c, b > 0;
}

/// One simulated client connection: a slot table of in-flight headers, a
/// liveness flag, and an id naming its completion queue.
pub struct FakeConnection {
    tx_buffer: Vec<PacketHeader>,
    wait: bool,
    conn_id: u16,
}

impl FakeConnection {
    /// The slot table of in-flight headers, indexed by request handle.
    pub closed spec fn slots(&self) -> Seq<PacketHeader> {
        self.tx_buffer@
    }

    /// Whether the connection is still open: a dead connection turns blocked
    /// reads into end-of-stream.
    pub closed spec fn alive(&self) -> bool {
        self.wait
    }

    /// This connection's id, naming its completion queue.
    pub closed spec fn id(&self) -> u16 {
        self.conn_id
    }

    /// A connection is well-formed when it has at least one slot and every
    /// handle it could store fits inside a token.
    pub open spec fn wf(&self) -> bool {
        1 <= self.slots().len() <= TOKEN_BASE
    }

    /// The connection id, for callers that route completions.
    pub fn connection_id(&self) -> (r: u16)
        ensures
            r == self.id(),
    {
        self.conn_id
    }

    /// Opens a connection able to keep `max_packets` requests in flight
    /// (slot capacity `max_packets + 1`, since handle 0 is a sentinel),
    /// drawing its id from `ids`.
    pub fn new(max_packets: usize, ids: &mut ConnIdAllocator) -> (r: FakeConnection)
        requires
            old(ids).in_use() < MAX_CONNS,
            max_packets < usize::MAX,
            max_packets + 1 <= TOKEN_BASE,
        ensures
            r.wf(),
            r.slots().len() == max_packets + 1,
            forall|k: int| 0 <= k < r.slots().len() ==> #[trigger] r.slots()[k] == (PacketHeader {
                req_handle: 0u64,
                lba: 0u64,
                lba_count: 0u32,
                opcode: 0u16,
                tx_tsc: 0u64,
                conn_id: 0u16,
                rx_tsc: 0u64,
            }),
            r.alive(),
            r.id() == old(ids).in_use(),
            final(ids).in_use() == old(ids).in_use() + 1,
    {
        let n = max_packets + 1;
        let mut v: Vec<PacketHeader> = Vec::with_capacity(n);
        let mut i: usize = 0;
        while i < n
            invariant
                i <= n,
                v@.len() == i,
                forall|k: int| 0 <= k < i ==> #[trigger] v@[k] == (PacketHeader {
                    req_handle: 0u64,
                    lba: 0u64,
                    lba_count: 0u32,
                    opcode: 0u16,
                    tx_tsc: 0u64,
                    conn_id: 0u16,
                    rx_tsc: 0u64,
                }),
            decreases n - i,
        {
            v.push(PacketHeader::zeroed());
            i = i + 1;
        }
        FakeConnection { tx_buffer: v, wait: true, conn_id: ids.acquire() }
    }

    /// Marks the connection dead — pending and future reads observe
    /// end-of-stream — and returns its id to the pool.
    pub fn shutdown(&mut self, ids: &mut ConnIdAllocator)
        requires
            old(ids).in_use() > 0,
        ensures
            !final(self).alive(),
            final(self).slots() == old(self).slots(),
            final(self).id() == old(self).id(),
            final(ids).in_use() == old(ids).in_use() - 1,
    {
        self.wait = false;
        ids.release();
    }

    /// Accepts one encoded request: decodes its header, stamps it with this
    /// connection's id and the submission timestamp `now`, stores it in the
    /// slot named by its handle (overwriting any prior occupant), and returns
    /// the accepted byte count together with the backend submission to make.
    /// Submission is fire-and-forget: the caller dispatches the returned
    /// action and, on completion, routes the token to `apply_completion`.
    pub fn write_request(&mut self, buf: &Vec<u8>, now: u64) -> (r: (usize, SubmitAction))
        requires
            old(self).wf(),
            spec_decode(buf@) is Ok,
            spec_decode(buf@)->Ok_0.req_handle < old(self).slots().len(),
        ensures
            final(self).wf(),
            final(self).alive() == old(self).alive(),
            final(self).id() == old(self).id(),
            ({
                let h = spec_decode(buf@)->Ok_0;
                let stamped = PacketHeader { conn_id: old(self).id(), tx_tsc: now, ..h };
                &&& final(self).slots() == old(self).slots().update(
                    h.req_handle as int,
                    stamped,
                )
                &&& r.0 == buf@.len()
                &&& r.1.is_write == (h.opcode != 0)
                &&& r.1.lba == h.lba
                &&& r.1.token == old(self).id() * TOKEN_BASE + h.req_handle
            }),
    {
        let n = self.tx_buffer.len();
        let parsed = PacketHeader::read(buf);
        match parsed {
            Ok(mut hdr) => {
                let is_write = hdr.opcode != 0;
                let lba = hdr.lba;
                assert(hdr.req_handle < n);
                let idx = hdr.req_handle as usize;
                hdr.conn_id = self.conn_id;
                hdr.tx_tsc = now;
                let token = encode_token(self.conn_id, hdr.req_handle);
                let slot: &mut PacketHeader = &mut self.tx_buffer[idx];
                *slot = hdr;
                assert(self.tx_buffer@ =~= old(self).slots().update(
                    spec_decode(buf@)->Ok_0.req_handle as int,
                    hdr,
                ));
                (buf.len(), SubmitAction { is_write, lba, token })
            },
            Err(_) => vstd::pervasive::unreached(),
        }
    }

    /// Records a backend completion correlated by `token`. A successful
    /// completion stamps the slot's completion timestamp and appends the
    /// handle to this connection's queue; a failed one is absorbed: nothing
    /// is recorded, and the waiting side relies on shutdown, not on a
    /// completion, to stop waiting.
    pub fn apply_completion(
        &mut self,
        reg: &mut CompletionRegistry,
        token: u64,
        status: IoStatus,
        now: u64,
    )
        requires
            token / TOKEN_BASE == old(self).id(),
            token % TOKEN_BASE < old(self).slots().len(),
            (old(self).id() as int) < old(reg)@.len(),
        ensures
            final(self).alive() == old(self).alive(),
            final(self).id() == old(self).id(),
            ({
                let h = token % TOKEN_BASE;
                if status == IoStatus::Okay {
                    &&& final(self).slots() == old(self).slots().update(
                        h as int,
                        PacketHeader { rx_tsc: now, ..old(self).slots()[h as int] },
                    )
                    &&& final(reg)@ == old(reg)@.update(
                        old(self).id() as int,
                        old(reg)@[old(self).id() as int].push(h),
                    )
                } else {
                    &&& final(self).slots() == old(self).slots()
                    &&& final(reg)@ == old(reg)@
                }
            }),
    {
        let n = self.tx_buffer.len();
        let (cid, handle) = decode_token(token);
        match status {
            IoStatus::Okay => {
                assert(handle < n);
                let idx = handle as usize;
                let slot: &mut PacketHeader = &mut self.tx_buffer[idx];
                slot.rx_tsc = now;
                assert(self.tx_buffer@ =~= old(self).slots().update(
                    handle as int,
                    PacketHeader { rx_tsc: now, ..old(self).slots()[handle as int] },
                ));
                reg.notify(cid, handle);
            },
            IoStatus::Failed => {},
        }
    }

    /// One step of a blocking read. If a completion is queued, takes the most
    /// recent one, clears its slot, and returns the stored header's wire
    /// image; if the queue is empty but the connection lives, asks the caller
    /// to yield and retry; if the connection was shut down, reports
    /// end-of-stream.
    pub fn read_step(&mut self, reg: &mut CompletionRegistry) -> (r: ReadStep)
        requires
            old(self).wf(),
            (old(self).id() as int) < old(reg)@.len(),
            forall|k: int| 0 <= k < old(reg)@[old(self).id() as int].len()
                ==> #[trigger] old(reg)@[old(self).id() as int][k] < old(self).slots().len(),
        ensures
            final(self).wf(),
            final(self).alive() == old(self).alive(),
            final(self).id() == old(self).id(),
            ({
                let q = old(reg)@[old(self).id() as int];
                if q.len() > 0 {
                    &&& r matches ReadStep::Data(bytes)
                        && bytes@ == spec_encode(old(self).slots()[q.last() as int])
                    &&& final(self).slots() == old(self).slots().update(
                        q.last() as int,
                        PacketHeader {
                            req_handle: 0u64,
                            lba: 0u64,
                            lba_count: 0u32,
                            opcode: 0u16,
                            tx_tsc: 0u64,
                            conn_id: 0u16,
                            rx_tsc: 0u64,
                        },
                    )
                    &&& final(reg)@ == old(reg)@.update(old(self).id() as int, q.drop_last())
                } else {
                    &&& final(self).slots() == old(self).slots()
                    &&& final(reg)@ == old(reg)@
                    &&& (old(self).alive() ==> r is WouldBlock)
                    &&& (!old(self).alive() ==> r is Eof)
                }
            }),
    {
        if reg.is_empty(self.conn_id) {
            if self.wait {
                ReadStep::WouldBlock
            } else {
                ReadStep::Eof
            }
        } else {
            let n = self.tx_buffer.len();
            let taken = reg.try_take(self.conn_id);
            match taken {
                Some(handle) => {
                    assert(handle < n);
                    let idx = handle as usize;
                    let packet = self.tx_buffer[idx];
                    let slot: &mut PacketHeader = &mut self.tx_buffer[idx];
                    *slot = PacketHeader::zeroed();
                    assert(self.tx_buffer@ =~= old(self).slots().update(
                        handle as int,
                        PacketHeader {
                            req_handle: 0u64,
                            lba: 0u64,
                            lba_count: 0u32,
                            opcode: 0u16,
                            tx_tsc: 0u64,
                            conn_id: 0u16,
                            rx_tsc: 0u64,
                        },
                    ));
                    let mut out: Vec<u8> = Vec::with_capacity(42);
                    packet.write(&mut out);
                    assert(out@ =~= spec_encode(packet));
                    ReadStep::Data(out)
                },
                None => vstd::pervasive::unreached(),
            }
        }
    }
}

} // verus!
