//! Wire header codec: fixed-layout little-endian encoding and decoding of a
//! request/response header, self-described by a leading magic tag.

use vstd::prelude::*;

verus! {

/// The magic tag carried in the first two bytes of every encoded header; it
/// equals the encoded width so a response stream can be validated defensively.
pub const SANDOOK_MAGIC: u16 = 42;

/// One in-flight request/response header.
///
/// `req_handle` identifies the slot of the owning connection; `lba` is the
/// logical block address; `opcode` is 0 for a read and 1 for a write;
/// `tx_tsc` and `rx_tsc` are monotonic timestamps, zero until stamped;
/// `conn_id` names the owning connection.
#[derive(Clone, Copy, Debug, PartialEq, Eq, Structural)]
pub struct PacketHeader {
    pub req_handle: u64,
    pub lba: u64,
    pub lba_count: u32,
    pub opcode: u16,
    pub tx_tsc: u64,
    pub conn_id: u16,
    pub rx_tsc: u64,
}

/// Failure of decoding a header from bytes: the buffer is shorter than a
/// header, or the magic tag does not match.
#[derive(Clone, Copy, Debug, PartialEq, Eq, Structural)]
pub enum HeaderError {
    MalformedHeader,
}

/// Byte `k` (counting from the least significant) of `x`, little-endian.
pub open spec fn le_byte(x: u64, k: int) -> u8 {
    ((x >> (8 * k)) & 0xff) as u8
}

/// The value read little-endian from two bytes.
pub open spec fn le16_val(b0: u8, b1: u8) -> u16 {
    (b0 as u16) | ((b1 as u16) << 8)
}

/// The value read little-endian from four bytes.
pub open spec fn le32_val(b0: u8, b1: u8, b2: u8, b3: u8) -> u32 {
    (b0 as u32) | ((b1 as u32) << 8) | ((b2 as u32) << 16) | ((b3 as u32) << 24)
}

/// The value read little-endian from eight bytes.
pub open spec fn le64_val(b0: u8, b1: u8, b2: u8, b3: u8, b4: u8, b5: u8, b6: u8, b7: u8) -> u64 {
    (b0 as u64) | ((b1 as u64) << 8) | ((b2 as u64) << 16) | ((b3 as u64) << 24)
        | ((b4 as u64) << 32) | ((b5 as u64) << 40) | ((b6 as u64) << 48) | ((b7 as u64) << 56)
}

/// The little-endian bytes of the low 16 bits of `x`.
pub open spec fn le16_bytes(x: u64) -> Seq<u8> {
    seq![le_byte(x, 0), le_byte(x, 1)]
}

/// The little-endian bytes of the low 32 bits of `x`.
pub open spec fn le32_bytes(x: u64) -> Seq<u8> {
    seq![le_byte(x, 0), le_byte(x, 1), le_byte(x, 2), le_byte(x, 3)]
}

/// The eight little-endian bytes of `x`.
pub open spec fn le64_bytes(x: u64) -> Seq<u8> {
    seq![
        le_byte(x, 0), le_byte(x, 1), le_byte(x, 2), le_byte(x, 3),
        le_byte(x, 4), le_byte(x, 5), le_byte(x, 6), le_byte(x, 7),
    ]
}

/// The exact 42-byte wire image of a header: magic, opcode, handle, address,
/// block count, submit timestamp, connection id, completion timestamp, each
/// little-endian.
pub open spec fn spec_encode(h: PacketHeader) -> Seq<u8> {
    le16_bytes(SANDOOK_MAGIC as u64) + le16_bytes(h.opcode as u64) + le64_bytes(h.req_handle)
        + le64_bytes(h.lba) + le32_bytes(h.lba_count as u64) + le64_bytes(h.tx_tsc)
        + le16_bytes(h.conn_id as u64) + le64_bytes(h.rx_tsc)
}

/// The header whose fields are read little-endian from the first 42 bytes of
/// `s` (the magic tag is not a field; it is checked by `spec_decode`).
pub open spec fn spec_header_of(s: Seq<u8>) -> PacketHeader
    recommends
        s.len() >= 42,
{
    PacketHeader {
        opcode: le16_val(s[2], s[3]),
        req_handle: le64_val(s[4], s[5], s[6], s[7], s[8], s[9], s[10], s[11]),
        lba: le64_val(s[12], s[13], s[14], s[15], s[16], s[17], s[18], s[19]),
        lba_count: le32_val(s[20], s[21], s[22], s[23]),
        tx_tsc: le64_val(s[24], s[25], s[26], s[27], s[28], s[29], s[30], s[31]),
        conn_id: le16_val(s[32], s[33]),
        rx_tsc: le64_val(s[34], s[35], s[36], s[37], s[38], s[39], s[40], s[41]),
    }
}

/// What decoding a byte buffer yields: the decoded header, or a failure when
/// the buffer is shorter than 42 bytes or its magic tag mismatches.
pub open spec fn spec_decode(s: Seq<u8>) -> Result<PacketHeader, HeaderError> {
    if s.len() < 42 {
        Err(HeaderError::MalformedHeader)
    } else if le16_val(s[0], s[1]) != SANDOOK_MAGIC {
        Err(HeaderError::MalformedHeader)
    } else {
        Ok(spec_header_of(s))
    }
}

/// Appends the two little-endian bytes of the low 16 bits of `x` to `buf`.
fn push_le16(buf: &mut Vec<u8>, x: u64)
    ensures
        final(buf)@ == old(buf)@ + le16_bytes(x),
{
    buf.push(((x >> (8 * 0)) & 0xff) as u8);
    buf.push(((x >> (8 * 1)) & 0xff) as u8);
    assert(buf@ =~= old(buf)@ + le16_bytes(x));
}

/// Appends the four little-endian bytes of the low 32 bits of `x` to `buf`.
fn push_le32(buf: &mut Vec<u8>, x: u64)
    ensures
        final(buf)@ == old(buf)@ + le32_bytes(x),
{
    buf.push(((x >> (8 * 0)) & 0xff) as u8);
    buf.push(((x >> (8 * 1)) & 0xff) as u8);
    buf.push(((x >> (8 * 2)) & 0xff) as u8);
    buf.push(((x >> (8 * 3)) & 0xff) as u8);
    assert(buf@ =~= old(buf)@ + le32_bytes(x));
}

/// Appends the eight little-endian bytes of `x` to `buf`.
fn push_le64(buf: &mut Vec<u8>, x: u64)
    ensures
        final(buf)@ == old(buf)@ + le64_bytes(x),
{
    buf.push(((x >> (8 * 0)) & 0xff) as u8);
    buf.push(((x >> (8 * 1)) & 0xff) as u8);
    buf.push(((x >> (8 * 2)) & 0xff) as u8);
    buf.push(((x >> (8 * 3)) & 0xff) as u8);
    buf.push(((x >> (8 * 4)) & 0xff) as u8);
    buf.push(((x >> (8 * 5)) & 0xff) as u8);
    buf.push(((x >> (8 * 6)) & 0xff) as u8);
    buf.push(((x >> (8 * 7)) & 0xff) as u8);
    assert(buf@ =~= old(buf)@ + le64_bytes(x));
}

impl PacketHeader {
    /// A header with every field zero, as a vacant slot holds.
    pub fn zeroed() -> (r: PacketHeader)
        ensures
            r == (PacketHeader {
                req_handle: 0u64,
                lba: 0u64,
                lba_count: 0u32,
                opcode: 0u16,
                tx_tsc: 0u64,
                conn_id: 0u16,
                rx_tsc: 0u64,
            }),
    {
        PacketHeader {
            req_handle: 0,
            lba: 0,
            lba_count: 0,
            opcode: 0,
            tx_tsc: 0,
            conn_id: 0,
            rx_tsc: 0,
        }
    }

    /// Appends this header's exact 42-byte wire image to `buf`.
    pub fn write(&self, buf: &mut Vec<u8>)
        ensures
            final(buf)@ == old(buf)@ + spec_encode(*self),
            final(buf)@.len() == old(buf)@.len() + 42,
    {
        push_le16(buf, SANDOOK_MAGIC as u64);
        push_le16(buf, self.opcode as u64);
        push_le64(buf, self.req_handle);
        push_le64(buf, self.lba);
        push_le32(buf, self.lba_count as u64);
        push_le64(buf, self.tx_tsc);
        push_le16(buf, self.conn_id as u64);
        push_le64(buf, self.rx_tsc);
        assert(buf@ =~= old(buf)@ + spec_encode(*self));
    }

    /// Decodes a header from the first 42 bytes of `buf`, validating the
    /// magic tag; fails on a short buffer or a mismatched tag.
    pub fn read(buf: &Vec<u8>) -> (r: Result<PacketHeader, HeaderError>)
        ensures
            r == spec_decode(buf@),
    {
        if buf.len() < 42 {
            return Err(HeaderError::MalformedHeader);
        }
        let magic = le16_at(buf, 0);
        if magic != SANDOOK_MAGIC {
            return Err(HeaderError::MalformedHeader);
        }
        Ok(PacketHeader {
            opcode: le16_at(buf, 2),
            req_handle: le64_at(buf, 4),
            lba: le64_at(buf, 12),
            lba_count: le32_at(buf, 20),
            tx_tsc: le64_at(buf, 24),
            conn_id: le16_at(buf, 32),
            rx_tsc: le64_at(buf, 34),
        })
    }
}

/// Reads a little-endian `u16` from `buf` at byte offset `off`.
fn le16_at(buf: &Vec<u8>, off: usize) -> (r: u16)
    requires
        off + 2 <= buf@.len(),
    ensures
        r == le16_val(buf@[off as int], buf@[off as int + 1]),
{
    let n: usize = buf.len();
    (buf[off] as u16) | ((buf[off + 1] as u16) << 8)
}

/// Reads a little-endian `u32` from `buf` at byte offset `off`.
fn le32_at(buf: &Vec<u8>, off: usize) -> (r: u32)
    requires
        off + 4 <= buf@.len(),
    ensures
        r == le32_val(
            buf@[off as int], buf@[off as int + 1], buf@[off as int + 2], buf@[off as int + 3],
        ),
{
    let n: usize = buf.len();
    (buf[off] as u32) | ((buf[off + 1] as u32) << 8) | ((buf[off + 2] as u32) << 16)
        | ((buf[off + 3] as u32) << 24)
}

/// Reads a little-endian `u64` from `buf` at byte offset `off`.
fn le64_at(buf: &Vec<u8>, off: usize) -> (r: u64)
    requires
        off + 8 <= buf@.len(),
    ensures
        r == le64_val(
            buf@[off as int], buf@[off as int + 1], buf@[off as int + 2], buf@[off as int + 3],
            buf@[off as int + 4], buf@[off as int + 5], buf@[off as int + 6], buf@[off as int + 7],
        ),
{
    let n: usize = buf.len();
    (buf[off] as u64) | ((buf[off + 1] as u64) << 8) | ((buf[off + 2] as u64) << 16)
        | ((buf[off + 3] as u64) << 24) | ((buf[off + 4] as u64) << 32)
        | ((buf[off + 5] as u64) << 40) | ((buf[off + 6] as u64) << 48)
        | ((buf[off + 7] as u64) << 56)
}

/// Reassembling the two little-endian bytes of a 16-bit value gives it back.
pub proof fn lemma_le16_round(x: u16)
    ensures
        le16_val(le_byte(x as u64, 0), le_byte(x as u64, 1)) == x,
{
    let v = x as u64;
    assert((((((v >> 0) & 0xff) as u8) as u16) | (((((v >> 8) & 0xff) as u8) as u16) << 8))
        == (v as u16)) by (bit_vector);
    assert(v as u16 == x) by (bit_vector)
        requires v == x as u64;
}

/// Reassembling the four little-endian bytes of a 32-bit value gives it back.
pub proof fn lemma_le32_round(x: u32)
    ensures
        le32_val(
            le_byte(x as u64, 0), le_byte(x as u64, 1), le_byte(x as u64, 2), le_byte(x as u64, 3),
        ) == x,
{
    let v = x as u64;
    assert((((((v >> 0) & 0xff) as u8) as u32) | (((((v >> 8) & 0xff) as u8) as u32) << 8)
        | (((((v >> 16) & 0xff) as u8) as u32) << 16) | (((((v >> 24) & 0xff) as u8) as u32) << 24))
        == (v as u32)) by (bit_vector);
    assert(v as u32 == x) by (bit_vector)
        requires v == x as u64;
}

/// Reassembling the eight little-endian bytes of a 64-bit value gives it back.
pub proof fn lemma_le64_round(x: u64)
    ensures
        le64_val(
            le_byte(x, 0), le_byte(x, 1), le_byte(x, 2), le_byte(x, 3),
            le_byte(x, 4), le_byte(x, 5), le_byte(x, 6), le_byte(x, 7),
        ) == x,
{
    assert((((((x >> 0) & 0xff) as u8) as u64) | (((((x >> 8) & 0xff) as u8) as u64) << 8)
        | (((((x >> 16) & 0xff) as u8) as u64) << 16)
        | (((((x >> 24) & 0xff) as u8) as u64) << 24)
        | (((((x >> 32) & 0xff) as u8) as u64) << 32)
        | (((((x >> 40) & 0xff) as u8) as u64) << 40)
        | (((((x >> 48) & 0xff) as u8) as u64) << 48)
        | (((((x >> 56) & 0xff) as u8) as u64) << 56)) == x) by (bit_vector);
}

/// Round trip: decoding the wire image of any header gives back exactly that
/// header.
pub proof fn lemma_decode_encode(h: PacketHeader)
    ensures
        spec_decode(spec_encode(h)) == Ok::<PacketHeader, HeaderError>(h),
{
    let s = spec_encode(h);
    assert(s.len() == 42);
    lemma_le16_round(SANDOOK_MAGIC);
    lemma_le16_round(h.opcode);
    lemma_le64_round(h.req_handle);
    lemma_le64_round(h.lba);
    lemma_le32_round(h.lba_count);
    lemma_le64_round(h.tx_tsc);
    lemma_le16_round(h.conn_id);
    lemma_le64_round(h.rx_tsc);
    assert(spec_header_of(s) == h);
}

/// Magic validation: a buffer whose first two bytes do not spell the magic
/// tag never decodes, whatever the rest of the buffer holds.
pub proof fn lemma_bad_magic_rejected(s: Seq<u8>)
    requires
        s.len() < 42 || le16_val(s[0], s[1]) != SANDOOK_MAGIC,
    ensures
        spec_decode(s) == Err::<PacketHeader, HeaderError>(HeaderError::MalformedHeader),
{
}

} // verus!
