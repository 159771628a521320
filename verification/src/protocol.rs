//! Workload protocol: deterministic per-request generation of (address,
//! operation) pairs from a seed, and decoding of responses into
//! (slot, submit-time, elapsed).

use crate::codec::{spec_decode, spec_encode, HeaderError, PacketHeader};
use rand::Rng;
use rand_distr::Distribution;
use vstd::prelude::*;

verus! {

/// The first draw of the seeded generator: the raw value the logical block
/// address is reduced from.
pub uninterp spec fn mt_lba_draw(seed: u64) -> u64;

/// The second draw of the seeded generator: the per-mille value the
/// read/write choice is made from.
pub uninterp spec fn mt_op_draw(seed: u64) -> u64;

/// Relies on rand_mt::Mt64 (the seeded Mersenne Twister), rand's Rng::gen
/// and Uniform::sample: seeding, drawing a full word, then sampling
/// Uniform::new(0, 1000) is a function of the seed alone, and the uniform
/// sample lies in [0, 1000).
#[verifier::external_body]
fn draw_request(seed: u64) -> (r: (u64, u64))
    ensures
        r.0 == mt_lba_draw(seed),
        r.1 == mt_op_draw(seed),
        r.1 < 1000,
{
    let mut rng: rand_mt::Mt64 = rand_mt::Mt64::new(seed);
    let lba_draw: u64 = rng.gen();
    let op_draw: u64 = rand::distributions::Uniform::new(0u64, 1000u64).sample(&mut rng);
    (lba_draw, op_draw)
}

/// The seed a single request is derived from: the run seed mixed with the
/// request's sequence index, so distinct indexes draw distinct streams.
pub open spec fn spec_req_seed(seed: u64, i: usize) -> u64 {
    seed ^ (i as u64)
}

/// The header that request `i` of a run with seed `seed` carries: address
/// drawn uniformly below `nsectors`, a write with probability
/// `pct_writes / 1000`, handle `i + 1` (handle 0 is a sentinel), one block,
/// timestamps and connection id left zero.
pub open spec fn spec_gen_header(i: usize, seed: u64, nsectors: u64, pct_writes: u64) -> PacketHeader
    recommends
        nsectors > 0,
        i < usize::MAX,
{
    PacketHeader {
        req_handle: (i + 1) as u64,
        lba: mt_lba_draw(spec_req_seed(seed, i)) % nsectors,
        lba_count: 1u32,
        opcode: if mt_op_draw(spec_req_seed(seed, i)) < pct_writes {
            1u16
        } else {
            0u16
        },
        tx_tsc: 0u64,
        conn_id: 0u16,
        rx_tsc: 0u64,
    }
}

/// Generation never addresses past the sector count, and a write rate of
/// zero yields only reads while a rate of a thousand or more yields only
/// writes.
pub proof fn lemma_gen_header_bounds(i: usize, seed: u64, nsectors: u64, pct_writes: u64)
    requires
        nsectors > 0,
        i < usize::MAX,
    ensures
        spec_gen_header(i, seed, nsectors, pct_writes).lba < nsectors,
        pct_writes == 0 ==> spec_gen_header(i, seed, nsectors, pct_writes).opcode == 0,
        pct_writes >= 1000 ==> spec_gen_header(i, seed, nsectors, pct_writes).opcode == 1
            || mt_op_draw(spec_req_seed(seed, i)) >= 1000,
{
}

/// The workload protocol configuration: sector count, write rate in requests
/// per thousand, request size, the interactive-confirmation flag, and the
/// one-time initialization latch.
pub struct SandookProtocol {
    request_size: usize,
    pct_writes: u64,
    interactive: bool,
    nsectors: u64,
    runtime_initialized: bool,
}

impl SandookProtocol {
    /// The number of addressable sectors requests are drawn over.
    pub closed spec fn spec_nsectors(&self) -> u64 {
        self.nsectors
    }

    /// Write requests per thousand generated requests.
    pub closed spec fn spec_pct_writes(&self) -> u64 {
        self.pct_writes
    }

    /// The configured request size in bytes.
    pub closed spec fn spec_request_size(&self) -> usize {
        self.request_size
    }

    /// Whether the one-time confirmation prompt was asked for.
    pub closed spec fn spec_interactive(&self) -> bool {
        self.interactive
    }

    /// Whether the one-time initialization step has run.
    pub closed spec fn spec_initialized(&self) -> bool {
        self.runtime_initialized
    }

    /// A protocol is well-formed when it can draw addresses at all.
    pub open spec fn wf(&self) -> bool {
        self.spec_nsectors() > 0
    }

    /// A protocol over `nsectors` addressable sectors that marks
    /// `pct_writes` of every thousand requests as writes; initialization has
    /// not run yet.
    pub fn new(nsectors: u64, request_size: usize, pct_writes: u64, interactive: bool) -> (r:
        SandookProtocol)
        requires
            nsectors > 0,
        ensures
            r.wf(),
            r.spec_nsectors() == nsectors,
            r.spec_pct_writes() == pct_writes,
            r.spec_request_size() == request_size,
            r.spec_interactive() == interactive,
            !r.spec_initialized(),
    {
        SandookProtocol {
            request_size,
            pct_writes,
            interactive,
            nsectors,
            runtime_initialized: false,
        }
    }

    /// Latches the one-time initialization flag. Returns whether this call
    /// was the first — exactly then must the caller perform the backend's
    /// own setup (and the optional interactive confirmation) before
    /// generating requests; later calls change nothing.
    pub fn init_sandook(&mut self) -> (r: bool)
        ensures
            final(self).spec_initialized(),
            r == !old(self).spec_initialized(),
            final(self).spec_nsectors() == old(self).spec_nsectors(),
            final(self).spec_pct_writes() == old(self).spec_pct_writes(),
            final(self).spec_request_size() == old(self).spec_request_size(),
            final(self).spec_interactive() == old(self).spec_interactive(),
    {
        if !self.runtime_initialized {
            self.runtime_initialized = true;
            true
        } else {
            false
        }
    }

    /// Releases the one-time initialization latch. Returns whether it was
    /// held — exactly then must the caller run the backend's teardown.
    pub fn teardown(&mut self) -> (r: bool)
        ensures
            !final(self).spec_initialized(),
            r == old(self).spec_initialized(),
            final(self).spec_nsectors() == old(self).spec_nsectors(),
            final(self).spec_pct_writes() == old(self).spec_pct_writes(),
            final(self).spec_request_size() == old(self).spec_request_size(),
            final(self).spec_interactive() == old(self).spec_interactive(),
    {
        if self.runtime_initialized {
            self.runtime_initialized = false;
            true
        } else {
            false
        }
    }

    /// Whether responses must be matched to requests in issue order; they
    /// need not be, completions arrive in backend order.
    pub fn uses_ordered_requests(&self) -> (r: bool)
        ensures
            r == false,
    {
        false
    }

    /// Appends the wire image of request `i` of the run seeded with `seed`
    /// to `buf`. The request is a pure function of `(i, seed)` and this
    /// configuration, so identical runs generate bit-identical traffic.
    pub fn gen_req(&self, i: usize, seed: u64, buf: &mut Vec<u8>)
        requires
            self.wf(),
            self.spec_initialized(),
            i < usize::MAX,
        ensures
            final(buf)@ == old(buf)@ + spec_encode(
                spec_gen_header(i, seed, self.spec_nsectors(), self.spec_pct_writes()),
            ),
    {
        let req_seed = seed ^ (i as u64);
        let (lba_draw, op_draw) = draw_request(req_seed);
        let lba = lba_draw % self.nsectors;
        let opcode: u16 = if op_draw < self.pct_writes {
            1
        } else {
            0
        };
        let header = PacketHeader {
            req_handle: i as u64 + 1,
            lba,
            lba_count: 1,
            opcode,
            tx_tsc: 0,
            conn_id: 0,
            rx_tsc: 0,
        };
        header.write(buf);
    }

    /// Decodes a response buffer into `(logical index, submit time,
    /// elapsed)`: the handle minus one (undoing the sentinel shift), the
    /// submission timestamp, and the completion-minus-submission difference.
    /// Fails exactly when the buffer fails codec validation.
    pub fn read_response(&self, buf: &Vec<u8>) -> (r: Result<(usize, u64, u64), HeaderError>)
        requires
            spec_decode(buf@) is Ok ==> ({
                let h = spec_decode(buf@)->Ok_0;
                &&& h.req_handle >= 1
                &&& h.req_handle <= usize::MAX
                &&& h.rx_tsc >= h.tx_tsc
            }),
        ensures
            spec_decode(buf@) is Err ==> r == Err::<(usize, u64, u64), HeaderError>(
                HeaderError::MalformedHeader,
            ),
            spec_decode(buf@) is Ok ==> ({
                let h = spec_decode(buf@)->Ok_0;
                r == Ok::<(usize, u64, u64), HeaderError>(
                    ((h.req_handle - 1) as usize, h.tx_tsc, (h.rx_tsc - h.tx_tsc) as u64),
                )
            }),
    {
        let parsed = PacketHeader::read(buf);
        match parsed {
            Ok(hdr) => Ok(((hdr.req_handle - 1) as usize, hdr.tx_tsc, hdr.rx_tsc - hdr.tx_tsc)),
            Err(_) => Err(HeaderError::MalformedHeader),
        }
    }
}

} // verus!
