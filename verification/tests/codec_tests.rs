use loadgen::codec::{HeaderError, PacketHeader};

fn sample_header() -> PacketHeader {
    PacketHeader {
        req_handle: 7,
        lba: 0x0123_4567_89ab_cdef,
        lba_count: 1,
        opcode: 1,
        tx_tsc: 55,
        conn_id: 3,
        rx_tsc: 99,
    }
}

#[test]
fn round_trip_typical_header() {
    let h = sample_header();
    let mut buf: Vec<u8> = Vec::new();
    h.write(&mut buf);
    assert_eq!(buf.len(), 42);
    let back = PacketHeader::read(&buf).unwrap();
    assert_eq!(back, h);
}

#[test]
fn round_trip_extreme_values() {
    let h = PacketHeader {
        req_handle: u64::MAX,
        lba: 0,
        lba_count: u32::MAX,
        opcode: u16::MAX,
        tx_tsc: u64::MAX,
        conn_id: u16::MAX,
        rx_tsc: 1,
    };
    let mut buf: Vec<u8> = Vec::new();
    h.write(&mut buf);
    let back = PacketHeader::read(&buf).unwrap();
    assert_eq!(back, h);
}

#[test]
fn exact_wire_layout() {
    let h = PacketHeader {
        req_handle: 0x0807060504030201,
        lba: 0x100,
        lba_count: 2,
        opcode: 1,
        tx_tsc: 0xaabb,
        conn_id: 0x1234,
        rx_tsc: 0xccdd,
    };
    let mut buf: Vec<u8> = Vec::new();
    h.write(&mut buf);
    let expected: Vec<u8> = vec![
        42, 0, // magic, little-endian
        1, 0, // opcode
        1, 2, 3, 4, 5, 6, 7, 8, // handle
        0, 1, 0, 0, 0, 0, 0, 0, // lba
        2, 0, 0, 0, // lba_count
        0xbb, 0xaa, 0, 0, 0, 0, 0, 0, // tx_tsc
        0x34, 0x12, // conn_id
        0xdd, 0xcc, 0, 0, 0, 0, 0, 0, // rx_tsc
    ];
    assert_eq!(buf, expected);
}

#[test]
fn bad_magic_always_fails() {
    let h = sample_header();
    let mut buf: Vec<u8> = Vec::new();
    h.write(&mut buf);
    buf[0] = 43;
    assert_eq!(
        PacketHeader::read(&buf),
        Err(HeaderError::MalformedHeader)
    );
    buf[0] = 42;
    buf[1] = 1;
    assert_eq!(
        PacketHeader::read(&buf),
        Err(HeaderError::MalformedHeader)
    );
}

#[test]
fn truncated_buffer_fails() {
    let h = sample_header();
    let mut buf: Vec<u8> = Vec::new();
    h.write(&mut buf);
    buf.truncate(41);
    assert_eq!(
        PacketHeader::read(&buf),
        Err(HeaderError::MalformedHeader)
    );
    let empty: Vec<u8> = Vec::new();
    assert_eq!(
        PacketHeader::read(&empty),
        Err(HeaderError::MalformedHeader)
    );
}

#[test]
fn trailing_bytes_ignored() {
    let h = sample_header();
    let mut buf: Vec<u8> = Vec::new();
    h.write(&mut buf);
    buf.push(0xff);
    buf.push(0xee);
    let back = PacketHeader::read(&buf).unwrap();
    assert_eq!(back, h);
}

#[test]
fn zeroed_header_is_all_zero() {
    let z = PacketHeader::zeroed();
    assert_eq!(z.req_handle, 0);
    assert_eq!(z.lba, 0);
    assert_eq!(z.lba_count, 0);
    assert_eq!(z.opcode, 0);
    assert_eq!(z.tx_tsc, 0);
    assert_eq!(z.conn_id, 0);
    assert_eq!(z.rx_tsc, 0);
}
