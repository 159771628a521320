//! Rate-controlled load driver: an open-loop generator that plans one
//! operation per fixed inter-arrival interval, bounded by an outstanding-
//! operations cap, and summarizes the recorded latencies as percentiles.
//! Timing, spawning and the backend calls themselves live outside; this
//! module holds every dispatch decision and every statistic.

use rand::Rng;
use vstd::prelude::*;

verus! {

/// Timestamps are handled in microseconds up to this bound, so that a
/// nanosecond-precision schedule still fits a `u64`.
pub const MAX_TIME_US: u64 = 0x10000000000000;

/// Relies on rand::thread_rng and Rng::gen_range: a sample of the range
/// `0..n` lies in it. The value is random; nothing more is assumed of it.
#[verifier::external_body]
fn sample_below(n: u64) -> (r: u64)
    requires
        n > 0,
    ensures
        r < n,
{
    rand::thread_rng().gen_range(0..n)
}

/// One planned operation: read or write one block at `lba`.
#[derive(Clone, Copy, Debug, PartialEq, Eq, Structural)]
pub struct PlannedOp {
    pub is_write: bool,
    pub lba: u64,
}

/// Whether values grow (weakly) left to right.
pub open spec fn sorted(s: Seq<u64>) -> bool {
    forall|i: int, j: int| 0 <= i <= j < s.len() ==> s[i] <= s[j]
}

/// The index the p-th percentile is read from in a sorted log of `len`
/// samples: integer division, `len * p / 100`.
pub open spec fn pct_index(len: int, p: int) -> int {
    len * p / 100
}

/// In a log of exactly one hundred sorted samples the 50th, 90th and 99th
/// percentiles are read from indexes 50, 90 and 99 — the integer-index
/// convention, literally.
pub proof fn lemma_percentile_centenary()
    ensures
        pct_index(100, 50) == 50,
        pct_index(100, 90) == 90,
        pct_index(100, 99) == 99,
{
}

/// The percentile indexes agree with the classic halves-and-tenths forms:
/// `len * 50 / 100` is `len / 2` and `len * 90 / 100` is `len * 9 / 10`.
pub proof fn lemma_percentile_matches_classic(len: int)
    requires
        len >= 0,
    ensures
        pct_index(len, 50) == len / 2,
        pct_index(len, 90) == len * 9 / 10,
{
    vstd::arithmetic::div_mod::lemma_div_denominator(len * 50, 50, 2);
    vstd::arithmetic::div_mod::lemma_div_by_multiple(len, 50);
    vstd::arithmetic::div_mod::lemma_div_denominator(len * 90, 10, 10);
    vstd::arithmetic::div_mod::lemma_div_by_multiple(len * 9, 10);
    assert((len * 9) * 10 == len * 90) by (nonlinear_arith);
}

/// One benchmark worker: the run's configuration, its strict-periodic
/// schedule cursor, and the latency log. The schedule is kept in
/// nanoseconds: the fixed inter-arrival delay is `1_000_000_000 / rate`.
pub struct Worker {
    nsectors: u64,
    sector_size: usize,
    write_pct: u64,
    outstanding_cap: u16,
    duration_us: u64,
    start_us: u64,
    end_us: u64,
    next_ns: u64,
    delay_ns: u64,
    latencies: Vec<u64>,
}

impl Worker {
    /// The number of addressable sectors.
    pub closed spec fn spec_nsectors(&self) -> u64 {
        self.nsectors
    }

    /// The backend's block size in bytes, for sizing transfer buffers.
    pub closed spec fn spec_sector_size(&self) -> usize {
        self.sector_size
    }

    /// Write requests per hundred planned operations.
    pub closed spec fn spec_write_pct(&self) -> u64 {
        self.write_pct
    }

    /// The cap on concurrently outstanding operations.
    pub closed spec fn spec_outstanding_cap(&self) -> u16 {
        self.outstanding_cap
    }

    /// The configured run length in microseconds.
    pub closed spec fn spec_duration_us(&self) -> u64 {
        self.duration_us
    }

    /// When the run started, in microseconds.
    pub closed spec fn spec_start_us(&self) -> u64 {
        self.start_us
    }

    /// When the run finished draining, in microseconds.
    pub closed spec fn spec_end_us(&self) -> u64 {
        self.end_us
    }

    /// The next scheduled issue time, in nanoseconds.
    pub closed spec fn spec_next_ns(&self) -> u64 {
        self.next_ns
    }

    /// The fixed inter-arrival delay, in nanoseconds.
    pub closed spec fn spec_delay_ns(&self) -> u64 {
        self.delay_ns
    }

    /// The latency samples recorded so far, in recording order.
    pub closed spec fn spec_latencies(&self) -> Seq<u64> {
        self.latencies@
    }

    /// Both workers run the same benchmark: sector count and size, write
    /// share, outstanding cap, duration and inter-arrival delay all agree.
    pub open spec fn same_config(&self, other: &Worker) -> bool {
        &&& self.spec_nsectors() == other.spec_nsectors()
        &&& self.spec_sector_size() == other.spec_sector_size()
        &&& self.spec_write_pct() == other.spec_write_pct()
        &&& self.spec_outstanding_cap() == other.spec_outstanding_cap()
        &&& self.spec_duration_us() == other.spec_duration_us()
        &&& self.spec_delay_ns() == other.spec_delay_ns()
    }

    /// A worker is well-formed when it can draw addresses and its delay is
    /// at most a second, as a rate of at least one op per second gives.
    pub open spec fn wf(&self) -> bool {
        &&& self.spec_nsectors() > 0
        &&& 0 < self.spec_delay_ns() <= 1_000_000_000
    }

    /// A worker for a run of `duration` seconds at `rate` operations per
    /// second, `write_pct` of each hundred being writes, with at most
    /// `outstanding` operations in flight, over `nsectors` sectors of
    /// `sector_size` bytes. The latency log starts empty and the schedule
    /// cursor unset.
    pub fn new(
        duration: usize,
        rate: usize,
        write_pct: u64,
        outstanding: u16,
        nsectors: u64,
        sector_size: usize,
    ) -> (r: Worker)
        requires
            0 < rate <= 1_000_000_000,
            nsectors > 0,
            duration <= 0x10000000,
        ensures
            r.wf(),
            r.spec_nsectors() == nsectors,
            r.spec_sector_size() == sector_size,
            r.spec_write_pct() == write_pct,
            r.spec_outstanding_cap() == outstanding,
            r.spec_duration_us() == duration * 1_000_000,
            r.spec_start_us() == 0,
            r.spec_end_us() == 0,
            r.spec_next_ns() == 1_000_000_000u64 / rate as u64,
            r.spec_delay_ns() == 1_000_000_000u64 / rate as u64,
            r.spec_latencies() == Seq::<u64>::empty(),
    {
        let delay_ns: u64 = 1_000_000_000 / rate as u64;
        assert(delay_ns >= 1) by (nonlinear_arith)
            requires delay_ns == 1_000_000_000u64 / rate as u64, 0 < rate as u64 <= 1_000_000_000;

        Worker {
            nsectors,
            sector_size,
            write_pct,
            outstanding_cap: outstanding,
            duration_us: (duration as u64) * 1_000_000,
            start_us: 0,
            end_us: 0,
            next_ns: delay_ns,
            delay_ns,
            latencies: Vec::new(),
        }
    }

    /// Starts the run's clock at `now_us`: the first operation is due one
    /// inter-arrival delay later.
    pub fn start(&mut self, now_us: u64)
        requires
            old(self).wf(),
            now_us <= MAX_TIME_US,
        ensures
            final(self).same_config(old(self)),
            final(self).spec_start_us() == now_us,
            final(self).spec_next_ns() == now_us * 1000 + old(self).spec_delay_ns(),
            final(self).spec_end_us() == old(self).spec_end_us(),
            final(self).spec_latencies() == old(self).spec_latencies(),
    {
        self.start_us = now_us;
        self.next_ns = now_us * 1000 + self.delay_ns;
    }

    /// Whether the run's configured duration has not yet elapsed at
    /// `now_us`: exactly then does the driver keep polling for dispatch.
    pub fn running(&self, now_us: u64) -> (r: bool)
        ensures
            r == ((now_us as int) < self.spec_start_us() + self.spec_duration_us()),
    {
        now_us < self.start_us || now_us - self.start_us < self.duration_us
    }

    /// The open-loop dispatch gate: an operation is issued exactly when its
    /// scheduled time has passed and the outstanding count is under the cap.
    /// In particular a dispatch decision is never made with `outstanding` at
    /// or above the cap.
    pub fn should_dispatch(&self, now_us: u64, outstanding: u16) -> (r: bool)
        requires
            now_us <= MAX_TIME_US,
        ensures
            r == (now_us * 1000 > self.spec_next_ns() && outstanding
                < self.spec_outstanding_cap()),
            r ==> outstanding < self.spec_outstanding_cap(),
    {
        now_us * 1000 > self.next_ns && outstanding < self.outstanding_cap
    }

    /// Plans the next operation: a uniformly random in-range address, a
    /// write for `write_pct` of each hundred draws. Randomness decides
    /// between read and write, but never where the address lands: it is
    /// always below the sector count, and a zero write share plans only
    /// reads while a full one plans only writes.
    pub fn plan_op(&self) -> (r: PlannedOp)
        requires
            self.wf(),
        ensures
            r.lba < self.spec_nsectors(),
            self.spec_write_pct() == 0 ==> !r.is_write,
            self.spec_write_pct() >= 100 ==> r.is_write,
    {
        let lba = sample_below(self.nsectors);
        let draw = sample_below(100);
        PlannedOp { is_write: self.decide_write(draw), lba }
    }

    /// The write/read choice for one percent draw: a write exactly when the
    /// draw falls under the configured write share.
    pub fn decide_write(&self, draw: u64) -> (r: bool)
        ensures
            r == (draw < self.spec_write_pct()),
    {
        draw < self.write_pct
    }

    /// Advances the schedule by exactly one inter-arrival delay, whether or
    /// not the operation dispatched late: strict periodic scheduling, with
    /// no catch-up burst.
    pub fn advance_schedule(&mut self)
        requires
            old(self).spec_next_ns() + old(self).spec_delay_ns() <= u64::MAX,
        ensures
            final(self).same_config(old(self)),
            final(self).spec_next_ns() == old(self).spec_next_ns() + old(self).spec_delay_ns(),
            final(self).spec_start_us() == old(self).spec_start_us(),
            final(self).spec_end_us() == old(self).spec_end_us(),
            final(self).spec_latencies() == old(self).spec_latencies(),
    {
        self.next_ns = self.next_ns + self.delay_ns;
    }

    /// Appends one elapsed-time sample to the latency log.
    pub fn record_latency(&mut self, sample_us: u64)
        ensures
            final(self).same_config(old(self)),
            final(self).spec_latencies() == old(self).spec_latencies().push(sample_us),
            final(self).spec_start_us() == old(self).spec_start_us(),
            final(self).spec_end_us() == old(self).spec_end_us(),
            final(self).spec_next_ns() == old(self).spec_next_ns(),
    {
        self.latencies.push(sample_us);
    }

    /// Marks the end of the measured interval.
    pub fn finish(&mut self, now_us: u64)
        ensures
            final(self).same_config(old(self)),
            final(self).spec_end_us() == now_us,
            final(self).spec_start_us() == old(self).spec_start_us(),
            final(self).spec_next_ns() == old(self).spec_next_ns(),
            final(self).spec_latencies() == old(self).spec_latencies(),
    {
        self.end_us = now_us;
    }

    /// The number of recorded samples.
    pub fn sample_count(&self) -> (r: usize)
        ensures
            r == self.spec_latencies().len(),
    {
        self.latencies.len()
    }

    /// The measured wall time of the run in microseconds.
    pub fn elapsed_us(&self) -> (r: u64)
        requires
            self.spec_start_us() <= self.spec_end_us(),
        ensures
            r == self.spec_end_us() - self.spec_start_us(),
    {
        self.end_us - self.start_us
    }

    /// Sorts the latency log and reads the 50th, 90th and 99th percentiles
    /// at indexes `len * p / 100`. The log keeps exactly its samples, only
    /// reordered.
    pub fn latency_report(&mut self) -> (r: (u64, u64, u64))
        requires
            old(self).spec_latencies().len() > 0,
            old(self).spec_latencies().len() * 99 <= usize::MAX,
        ensures
            sorted(final(self).spec_latencies()),
            final(self).spec_latencies().to_multiset() == old(
                self,
            ).spec_latencies().to_multiset(),
            final(self).spec_latencies().len() == old(self).spec_latencies().len(),
            ({
                let s = final(self).spec_latencies();
                &&& r.0 == s[pct_index(s.len() as int, 50)]
                &&& r.1 == s[pct_index(s.len() as int, 90)]
                &&& r.2 == s[pct_index(s.len() as int, 99)]
            }),
            final(self).same_config(old(self)),
            final(self).spec_start_us() == old(self).spec_start_us(),
            final(self).spec_end_us() == old(self).spec_end_us(),
    {
        sort_u64(&mut self.latencies);
        let len = self.latencies.len();
        proof {
            let l = len as int;
            assert(l * 50 / 100 < l && l * 90 / 100 < l && l * 99 / 100 < l)
                by (nonlinear_arith)
                requires l > 0;
        }
        let p50 = self.latencies[len * 50 / 100];
        let p90 = self.latencies[len * 90 / 100];
        let p99 = self.latencies[len * 99 / 100];
        (p50, p90, p99)
    }
}

/// Sorts `v` ascending by insertion, keeping exactly the same samples.
fn sort_u64(v: &mut Vec<u64>)
    ensures
        sorted(final(v)@),
        final(v)@.to_multiset() == old(v)@.to_multiset(),
        final(v)@.len() == old(v)@.len(),
{
    let n = v.len();
    if n < 2 {
        return ;
    }
    let mut i: usize = 1;
    while i < n
        invariant
            1 <= i <= n,
            v@.len() == n,
            forall|a: int, b: int| 0 <= a <= b < i ==> v@[a] <= v@[b],
            v@.to_multiset() == old(v)@.to_multiset(),
        decreases n - i,
    {
        let mut j: usize = i;
        while j > 0 && v[j - 1] > v[j]
            invariant
                0 <= j <= i < n,
                v@.len() == n,
                v@.to_multiset() == old(v)@.to_multiset(),
                forall|a: int, b: int| 0 <= a <= b <= i && a != j && b != j ==> v@[a] <= v@[b],
                forall|b: int| j < b <= i ==> v@[j as int] <= v@[b],
            decreases j,
        {
            swap_adjacent(v, j - 1);
            j = j - 1;
        }
        proof {
            assert(forall|a: int, b: int| 0 <= a <= b <= i ==> v@[a] <= v@[b]) by {
                assert forall|a: int, b: int| 0 <= a <= b <= i implies v@[a] <= v@[b] by {
                    if a == j && b != j {
                        assert(v@[a] <= v@[b]);
                    } else if b == j && a != j {
                        assert(v@[a] <= v@[j - 1]);
                        assert(v@[j - 1] <= v@[b]);
                    }
                }
            }
        }
        i = i + 1;
    }
}

/// Swaps the neighbours at `k` and `k + 1`.
fn swap_adjacent(v: &mut Vec<u64>, k: usize)
    requires
        k + 1 < old(v)@.len(),
    ensures
        final(v)@ == old(v)@.update(k as int, old(v)@[k as int + 1]).update(
            k as int + 1,
            old(v)@[k as int],
        ),
        final(v)@.to_multiset() == old(v)@.to_multiset(),
        final(v)@.len() == old(v)@.len(),
{
    let n = v.len();
    let a = v[k];
    let b = v[k + 1];
    let slot_a: &mut u64 = &mut v[k];
    *slot_a = b;
    let slot_b: &mut u64 = &mut v[k + 1];
    *slot_b = a;
    proof {
        broadcast use vstd::seq_lib::to_multiset_update;
        broadcast use vstd::seq_lib::group_to_multiset_ensures;

        assert(v@ =~= old(v)@.update(k as int, old(v)@[k as int + 1]).update(
            k as int + 1,
            old(v)@[k as int],
        ));
        assert(v@.to_multiset() =~= old(v)@.to_multiset());
    }
}

} // verus!
