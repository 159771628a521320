use loadgen::codec::PacketHeader;
use loadgen::conn::{ConnIdAllocator, FakeConnection, IoStatus, ReadStep};
use loadgen::registry::CompletionRegistry;

#[test]
fn notify_then_take_exactly_once() {
    // K distinct (connection, handle) pairs, notified exactly once each,
    // come back exactly once each: no duplicates, no loss, no cross-talk.
    let mut reg = CompletionRegistry::new();
    let pairs: Vec<(u16, u64)> = vec![(0, 1), (0, 2), (7, 3), (7, 4), (99, 5)];
    for &(c, h) in &pairs {
        reg.notify(c, h);
    }
    let mut taken: Vec<(u16, u64)> = Vec::new();
    for c in [0u16, 7, 99] {
        while let Some(h) = reg.try_take(c) {
            taken.push((c, h));
        }
    }
    taken.sort();
    assert_eq!(taken, pairs);
    for c in [0u16, 7, 99] {
        assert!(reg.is_empty(c));
        assert_eq!(reg.try_take(c), None);
    }
}

#[test]
fn take_is_lifo_per_connection() {
    let mut reg = CompletionRegistry::new();
    reg.notify(5, 11);
    reg.notify(5, 12);
    assert_eq!(reg.try_take(5), Some(12));
    assert_eq!(reg.try_take(5), Some(11));
    assert_eq!(reg.try_take(5), None);
}

#[test]
fn take_all_drains_in_reverse_order() {
    let mut reg = CompletionRegistry::new();
    for h in [4u64, 8, 15, 16, 23, 42] {
        reg.notify(9, h);
    }
    let drained = reg.take_all(9);
    assert_eq!(drained, vec![42, 23, 16, 15, 8, 4]);
    assert!(reg.is_empty(9));
    assert_eq!(reg.take_all(9), Vec::<u64>::new());
}

#[test]
fn registry_has_bounded_slots() {
    let reg = CompletionRegistry::new();
    assert_eq!(reg.num_slots(), 100);
}

#[test]
fn allocator_hands_out_sequential_ids() {
    let mut ids = ConnIdAllocator::new();
    let a = FakeConnection::new(4, &mut ids);
    let b = FakeConnection::new(4, &mut ids);
    assert_eq!(a.connection_id(), 0);
    assert_eq!(b.connection_id(), 1);
}

fn encode(h: &PacketHeader) -> Vec<u8> {
    let mut buf: Vec<u8> = Vec::new();
    h.write(&mut buf);
    buf
}

#[test]
fn write_then_complete_then_read() {
    let mut ids = ConnIdAllocator::new();
    let mut conn = FakeConnection::new(8, &mut ids);
    let mut reg = CompletionRegistry::new();
    let h = PacketHeader {
        req_handle: 3,
        lba: 42,
        lba_count: 1,
        opcode: 0,
        tx_tsc: 0,
        conn_id: 0,
        rx_tsc: 0,
    };
    let (n, action) = conn.write_request(&encode(&h), 1000);
    assert_eq!(n, 42);
    assert!(!action.is_write);
    assert_eq!(action.lba, 42);

    conn.apply_completion(&mut reg, action.token, IoStatus::Okay, 2500);
    match conn.read_step(&mut reg) {
        ReadStep::Data(bytes) => {
            let back = PacketHeader::read(&bytes).unwrap();
            assert_eq!(back.req_handle, 3);
            assert_eq!(back.lba, 42);
            assert_eq!(back.tx_tsc, 1000);
            assert_eq!(back.rx_tsc, 2500);
            assert_eq!(back.conn_id, conn.connection_id());
        }
        _ => panic!("expected data"),
    }
    // The slot was cleared and the queue drained.
    match conn.read_step(&mut reg) {
        ReadStep::WouldBlock => {}
        _ => panic!("expected would-block while alive"),
    }
}

#[test]
fn failed_completion_never_notifies() {
    let mut ids = ConnIdAllocator::new();
    let mut conn = FakeConnection::new(8, &mut ids);
    let mut reg = CompletionRegistry::new();
    let h = PacketHeader {
        req_handle: 1,
        lba: 7,
        lba_count: 1,
        opcode: 1,
        tx_tsc: 0,
        conn_id: 0,
        rx_tsc: 0,
    };
    let (_, action) = conn.write_request(&encode(&h), 10);
    assert!(action.is_write);
    conn.apply_completion(&mut reg, action.token, IoStatus::Failed, 20);
    assert!(reg.is_empty(conn.connection_id()));
    match conn.read_step(&mut reg) {
        ReadStep::WouldBlock => {}
        _ => panic!("a failed completion must leave the reader waiting"),
    }
}

#[test]
fn shutdown_turns_empty_queue_into_eof() {
    let mut ids = ConnIdAllocator::new();
    let mut conn = FakeConnection::new(8, &mut ids);
    let mut reg = CompletionRegistry::new();
    match conn.read_step(&mut reg) {
        ReadStep::WouldBlock => {}
        _ => panic!("alive and empty should block"),
    }
    conn.shutdown(&mut ids);
    match conn.read_step(&mut reg) {
        ReadStep::Eof => {}
        _ => panic!("dead and empty should be end-of-stream"),
    }
    // And it stays end-of-stream.
    match conn.read_step(&mut reg) {
        ReadStep::Eof => {}
        _ => panic!("end-of-stream should persist"),
    }
}
