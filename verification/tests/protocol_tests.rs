use loadgen::codec::{HeaderError, PacketHeader};
use loadgen::protocol::SandookProtocol;

fn gen_one(proto: &SandookProtocol, i: usize, seed: u64) -> PacketHeader {
    let mut buf: Vec<u8> = Vec::new();
    proto.gen_req(i, seed, &mut buf);
    assert_eq!(buf.len(), 42);
    PacketHeader::read(&buf).unwrap()
}

fn initialized(nsectors: u64, pct_writes: u64) -> SandookProtocol {
    let mut p = SandookProtocol::new(nsectors, 32, pct_writes, false);
    assert!(p.init_sandook());
    p
}

#[test]
fn generation_is_deterministic() {
    let p = initialized(2_097_152, 250);
    for i in [0usize, 1, 17, 4096] {
        let mut a: Vec<u8> = Vec::new();
        let mut b: Vec<u8> = Vec::new();
        p.gen_req(i, 0xdead_beef, &mut a);
        p.gen_req(i, 0xdead_beef, &mut b);
        assert_eq!(a, b, "identical (i, seed) must give bit-identical bytes");
    }
}

#[test]
fn varying_index_varies_addresses() {
    let p = initialized(2_097_152, 0);
    let mut addrs: Vec<u64> = Vec::new();
    for i in 0..64usize {
        addrs.push(gen_one(&p, i, 42).lba);
    }
    let first = addrs[0];
    assert!(
        addrs.iter().any(|&a| a != first),
        "a fixed seed with varying index must not pin the address"
    );
}

#[test]
fn handles_shift_index_by_one() {
    let p = initialized(1024, 0);
    for i in [0usize, 1, 500] {
        assert_eq!(gen_one(&p, i, 7).req_handle, (i + 1) as u64);
    }
}

#[test]
fn all_reads_in_range_with_zero_write_rate() {
    // sector_count = 1024, write_permille = 0, 1000 requests, seed 42:
    // every operation reads, every address lies in [0, 1024).
    let p = initialized(1024, 0);
    for i in 0..1000usize {
        let h = gen_one(&p, i, 42);
        assert_eq!(h.opcode, 0, "request {i} must be a read");
        assert!(h.lba < 1024, "request {i} addressed sector {}", h.lba);
        assert_eq!(h.lba_count, 1);
        assert_eq!(h.tx_tsc, 0);
        assert_eq!(h.conn_id, 0);
        assert_eq!(h.rx_tsc, 0);
    }
}

#[test]
fn write_rate_converges() {
    // 100_000 requests at 500 writes per thousand: the write fraction must
    // land within two percent of one half.
    let p = initialized(4096, 500);
    let n = 100_000usize;
    let mut writes = 0usize;
    for i in 0..n {
        if gen_one(&p, i, 1234).opcode == 1 {
            writes += 1;
        }
    }
    let fraction = writes as f64 / n as f64;
    assert!(
        (fraction - 0.5).abs() < 0.02,
        "write fraction {fraction} strays from 0.5"
    );
}

#[test]
fn init_latch_is_idempotent() {
    let mut p = SandookProtocol::new(64, 32, 0, false);
    assert!(p.init_sandook(), "first call performs initialization");
    assert!(!p.init_sandook(), "second call must not");
    assert!(p.teardown(), "first teardown releases");
    assert!(!p.teardown(), "second teardown must not");
}

#[test]
fn unordered_requests() {
    let p = initialized(64, 0);
    assert!(!p.uses_ordered_requests());
}

#[test]
fn read_response_splits_header() {
    let p = initialized(64, 0);
    let h = PacketHeader {
        req_handle: 9,
        lba: 3,
        lba_count: 1,
        opcode: 0,
        tx_tsc: 1_000,
        conn_id: 2,
        rx_tsc: 1_750,
    };
    let mut buf: Vec<u8> = Vec::new();
    h.write(&mut buf);
    let (index, submitted, elapsed) = p.read_response(&buf).unwrap();
    assert_eq!(index, 8);
    assert_eq!(submitted, 1_000);
    assert_eq!(elapsed, 750);
}

#[test]
fn read_response_rejects_bad_magic() {
    let p = initialized(64, 0);
    let h = PacketHeader {
        req_handle: 9,
        lba: 3,
        lba_count: 1,
        opcode: 0,
        tx_tsc: 1_000,
        conn_id: 2,
        rx_tsc: 1_750,
    };
    let mut buf: Vec<u8> = Vec::new();
    h.write(&mut buf);
    buf[1] = 0xff;
    assert_eq!(p.read_response(&buf), Err(HeaderError::MalformedHeader));
}
