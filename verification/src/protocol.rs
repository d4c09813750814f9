//! Framing of the serial protocol: every frame is
//! `55 60 01 | command (LE u16) | payload length | 00 | operation id | payload | CRC-16 (LE)`,
//! where the CRC is CRC-16/MODBUS over everything before it.
use vstd::prelude::*;
use crate::error::EarError;

pub mod command;
pub mod response;

verus! {

/// The three bytes every frame starts with.
pub const HEADER_MAGIC: [u8; 3] = [0x55, 0x60, 0x01];

/// Bytes before the payload: magic, command, length, reserved, operation id.
pub const HEADER_LEN: usize = 8;

/// Bytes of the checksum trailer.
pub const CRC_LEN: usize = 2;

/// One frame of the protocol, without its framing bytes.
#[derive(Debug, Clone)]
pub struct EarPacket {
    pub command: u16,
    pub operation_id: u8,
    pub payload: Vec<u8>,
}

/// The contents of a frame as plain values.
pub struct PacketModel {
    pub command: u16,
    pub operation_id: u8,
    pub payload: Seq<u8>,
}

impl View for EarPacket {
    type V = PacketModel;

    open spec fn view(&self) -> PacketModel {
        PacketModel { command: self.command, operation_id: self.operation_id, payload: self.payload@ }
    }
}

/// One shift of the CRC-16/MODBUS register (reflected polynomial 0xA001).
pub open spec fn crc_step(crc: u16) -> u16 {
    if crc & 1 == 1 {
        (crc >> 1u16) ^ 0xA001u16
    } else {
        crc >> 1u16
    }
}

/// `n` shifts of the CRC register.
pub open spec fn crc_shifts(crc: u16, n: nat) -> u16
    decreases n,
{
    if n == 0 {
        crc
    } else {
        crc_shifts(crc_step(crc), (n - 1) as nat)
    }
}

/// The CRC register after one more byte.
pub open spec fn crc_byte(crc: u16, byte: u8) -> u16 {
    crc_shifts(crc ^ (byte as u16), 8)
}

/// CRC-16/MODBUS of a byte sequence: start at 0xFFFF and feed each byte.
pub open spec fn crc16_of(bytes: Seq<u8>) -> u16
    decreases bytes.len(),
{
    if bytes.len() == 0 {
        0xFFFFu16
    } else {
        crc_byte(crc16_of(bytes.drop_last()), bytes.last())
    }
}

/// CRC-16/MODBUS of `buffer`.
pub fn crc16(buffer: &[u8]) -> (crc: u16)
    ensures
        crc == crc16_of(buffer@),
{
    let mut crc: u16 = 0xFFFF;
    let mut i: usize = 0;
    while i < buffer.len()
        invariant
            0 <= i <= buffer@.len(),
            crc == crc16_of(buffer@.take(i as int)),
        decreases buffer@.len() - i,
    {
        let ghost before = crc;
        assert(buffer@.take(i + 1).drop_last() =~= buffer@.take(i as int));
        crc = crc ^ (buffer[i] as u16);
        let mut k: u32 = 0;
        while k < 8
            invariant
                0 <= k <= 8,
                crc_shifts(crc, (8 - k) as nat) == crc_byte(before, buffer@[i as int]),
            decreases 8 - k,
        {
            if crc & 1 == 1 {
                crc = (crc >> 1) ^ 0xA001;
            } else {
                crc = crc >> 1;
            }
            k = k + 1;
        }
        i = i + 1;
    }
    assert(buffer@.take(buffer@.len() as int) =~= buffer@);
    crc
}


/// Low byte of a 16-bit value.
pub open spec fn low_byte(x: u16) -> u8 {
    (x % 256) as u8
}

/// High byte of a 16-bit value.
pub open spec fn high_byte(x: u16) -> u8 {
    (x / 256) as u8
}

/// The 16-bit value whose little-endian bytes are `lo`, `hi`.
pub open spec fn le_u16(lo: u8, hi: u8) -> u16 {
    (lo as int + 256 * hi as int) as u16
}

/// A frame without its checksum: header, then the payload. The length byte
/// holds the payload length modulo 256.
pub open spec fn frame_body(command: u16, operation_id: u8, payload: Seq<u8>) -> Seq<u8> {
    seq![
        0x55u8,
        0x60u8,
        0x01u8,
        low_byte(command),
        high_byte(command),
        (payload.len() % 256) as u8,
        0x00u8,
        operation_id,
    ] + payload
}

/// A whole frame: the body followed by its CRC-16, low byte first.
pub open spec fn encode_frame(command: u16, operation_id: u8, payload: Seq<u8>) -> Seq<u8> {
    let body = frame_body(command, operation_id, payload);
    body + seq![low_byte(crc16_of(body)), high_byte(crc16_of(body))]
}

/// What one attempt to read a frame from a receive buffer yields.
pub enum FrameStep {
    /// No complete frame yet: wait for more bytes.
    Pending,
    /// A complete frame was found but its checksum is wrong.
    CrcMismatch,
    /// A complete, intact frame.
    Frame(PacketModel),
}

/// `i` is the first position of the first magic byte 0x55 in `buf`.
pub open spec fn first_sync(buf: Seq<u8>, i: int) -> bool {
    &&& 0 <= i < buf.len()
    &&& buf[i] == 0x55u8
    &&& forall|j: int| 0 <= j < i ==> buf[j] != 0x55u8
}

/// One attempt to read a frame from a receive buffer, and what is left of the
/// buffer afterwards.
///
/// With fewer than eight bytes nothing is read. Otherwise the bytes before
/// the first 0x55 are discarded (all of them when there is none). If fewer
/// than eight bytes then remain, they wait for more. If the next two bytes
/// are not 60 01, the 0x55 is discarded and the search starts again. If the
/// frame that the length byte announces is not complete, the bytes wait for
/// more. Otherwise the frame is removed from the buffer, and it is either
/// rejected for a wrong checksum or returned.
pub open spec fn next_frame(buf: Seq<u8>) -> (Seq<u8>, FrameStep)
    decreases buf.len(),
{
    if buf.len() < 8 {
        (buf, FrameStep::Pending)
    } else if !(exists|i: int| first_sync(buf, i)) {
        (Seq::empty(), FrameStep::Pending)
    } else {
        let b = buf.skip(choose|i: int| first_sync(buf, i));
        if b.len() < 8 {
            (b, FrameStep::Pending)
        } else if b[1] != 0x60u8 || b[2] != 0x01u8 {
            next_frame(b.skip(1))
        } else {
            let total = 10 + b[5] as int;
            if b.len() < total {
                (b, FrameStep::Pending)
            } else if crc16_of(b.take(total - 2)) != le_u16(b[total - 2], b[total - 1]) {
                (b.skip(total), FrameStep::CrcMismatch)
            } else {
                (
                    b.skip(total),
                    FrameStep::Frame(
                        PacketModel {
                            command: le_u16(b[3], b[4]),
                            operation_id: b[7],
                            payload: b.subrange(8, total - 2),
                        },
                    ),
                )
            }
        }
    }
}

/// Position of the first 0x55 in `buf`, or its length when there is none.
fn find_sync(buf: &Vec<u8>) -> (r: usize)
    ensures
        r <= buf@.len(),
        r < buf@.len() ==> first_sync(buf@, r as int),
        r == buf@.len() ==> forall|j: int| 0 <= j < buf@.len() ==> buf@[j] != 0x55u8,
{
    let mut i: usize = 0;
    while i < buf.len()
        invariant
            0 <= i <= buf@.len(),
            forall|j: int| 0 <= j < i ==> buf@[j] != 0x55u8,
        decreases buf@.len() - i,
    {
        if buf[i] == 0x55 {
            return i;
        }
        i = i + 1;
    }
    i
}

/// There is only one first magic byte.
proof fn lemma_first_sync_unique(buf: Seq<u8>, i: int, k: int)
    requires
        first_sync(buf, i),
        first_sync(buf, k),
    ensures
        i == k,
{
    if i < k {
        assert(buf[i] != 0x55u8);
    } else if k < i {
        assert(buf[k] != 0x55u8);
    }
}

/// Removes the first `n` bytes of `buffer`.
fn drop_front(buffer: &mut Vec<u8>, n: usize)
    requires
        n <= old(buffer)@.len(),
    ensures
        final(buffer)@ == old(buffer)@.skip(n as int),
{
    let rest = buffer.split_off(n);
    *buffer = rest;
}


/// A 16-bit value is rebuilt from its two bytes.
pub proof fn lemma_le_u16_bytes(x: u16)
    ensures
        le_u16(low_byte(x), high_byte(x)) == x,
{
}

/// The layout of a frame: the magic bytes 55 60 01, the command low byte
/// first, the payload length modulo 256, a zero byte, the operation id, the
/// payload, and the CRC-16/MODBUS of all of that, low byte first.
pub proof fn lemma_frame_layout(command: u16, operation_id: u8, payload: Seq<u8>)
    ensures
        ({
            let f = encode_frame(command, operation_id, payload);
            let n = payload.len() as int;
            &&& f.len() == n + 10
            &&& f[0] == 0x55u8 && f[1] == 0x60u8 && f[2] == 0x01u8
            &&& f[3] as int == command as int % 256
            &&& f[4] as int == command as int / 256
            &&& f[5] as int == n % 256
            &&& f[6] == 0x00u8
            &&& f[7] == operation_id
            &&& f.subrange(8, n + 8) == payload
            &&& f[n + 8] as int + 256 * f[n + 9] as int == crc16_of(f.take(n + 8)) as int
        }),
{
    let f = encode_frame(command, operation_id, payload);
    let n = payload.len() as int;
    assert(f.take(n + 8) =~= frame_body(command, operation_id, payload));
    assert(f.subrange(8, n + 8) =~= payload);
    lemma_le_u16_bytes(crc16_of(frame_body(command, operation_id, payload)));
}

/// Reading from a buffer that starts with a whole frame (payload of at most
/// 255 bytes) yields exactly that frame's command, operation id and payload,
/// and leaves the bytes that followed it.
pub proof fn lemma_parse_encoded_frame(
    command: u16,
    operation_id: u8,
    payload: Seq<u8>,
    rest: Seq<u8>,
)
    requires
        payload.len() <= 255,
    ensures
        next_frame(encode_frame(command, operation_id, payload) + rest) == (
            rest,
            FrameStep::Frame(PacketModel { command, operation_id, payload }),
        ),
{
    let body = frame_body(command, operation_id, payload);
    let frame = encode_frame(command, operation_id, payload);
    let buf = frame + rest;
    let total: int = 10 + payload.len() as int;
    assert(frame.len() == total);
    assert(buf[0] == 0x55u8);
    assert(first_sync(buf, 0));
    let c = choose|i: int| first_sync(buf, i);
    lemma_first_sync_unique(buf, c, 0);
    assert(buf.skip(0) =~= buf);
    assert(buf[5] as int == payload.len());
    assert(buf.take(total - 2) =~= body);
    assert(buf[total - 2] == low_byte(crc16_of(body)));
    assert(buf[total - 1] == high_byte(crc16_of(body)));
    lemma_le_u16_bytes(crc16_of(body));
    lemma_le_u16_bytes(command);
    assert(buf.skip(total) =~= rest);
    assert(buf.subrange(8, total - 2) =~= payload);
}

/// Once the reader has skipped to the first magic byte, it goes on exactly
/// as it would on a buffer that starts there.
proof fn lemma_skip_to_sync(buf: Seq<u8>, k: int)
    requires
        first_sync(buf, k),
        buf.len() - k >= 8,
    ensures
        next_frame(buf) == next_frame(buf.skip(k)),
{
    let b = buf.skip(k);
    let c = choose|i: int| first_sync(buf, i);
    lemma_first_sync_unique(buf, c, k);
    assert(first_sync(b, 0));
    let c2 = choose|i: int| first_sync(b, i);
    lemma_first_sync_unique(b, c2, 0);
    assert(b.skip(0) =~= b);
}

/// Bytes without any 0x55 in front of a whole frame (payload of at most 255
/// bytes) are discarded, and the frame is read as it was written.
pub proof fn lemma_noise_before_frame(
    noise: Seq<u8>,
    command: u16,
    operation_id: u8,
    payload: Seq<u8>,
    rest: Seq<u8>,
)
    requires
        payload.len() <= 255,
        forall|j: int| 0 <= j < noise.len() ==> noise[j] != 0x55u8,
    ensures
        next_frame(noise + encode_frame(command, operation_id, payload) + rest) == (
            rest,
            FrameStep::Frame(PacketModel { command, operation_id, payload }),
        ),
{
    let f = encode_frame(command, operation_id, payload);
    let buf = noise + f + rest;
    let k = noise.len() as int;
    assert(buf[k] == 0x55u8);
    assert(first_sync(buf, k));
    assert(buf.skip(k) =~= f + rest);
    lemma_skip_to_sync(buf, k);
    lemma_parse_encoded_frame(command, operation_id, payload, rest);
}

/// A false magic byte (a 0x55 not followed by 60 01), after bytes without
/// any 0x55, never hides a whole frame (payload of at most 255 bytes) that
/// follows it: only the bytes up to and including that 0x55 are discarded.
pub proof fn lemma_false_magic_before_frame(
    noise: Seq<u8>,
    command: u16,
    operation_id: u8,
    payload: Seq<u8>,
    rest: Seq<u8>,
)
    requires
        payload.len() <= 255,
        forall|j: int| 0 <= j < noise.len() ==> noise[j] != 0x55u8,
    ensures
        next_frame(noise + seq![0x55u8] + encode_frame(command, operation_id, payload) + rest) == (
            rest,
            FrameStep::Frame(PacketModel { command, operation_id, payload }),
        ),
{
    let f = encode_frame(command, operation_id, payload);
    let buf = noise + seq![0x55u8] + f + rest;
    let k = noise.len() as int;
    assert(buf[k] == 0x55u8);
    assert(first_sync(buf, k));
    let b = buf.skip(k);
    assert(b =~= seq![0x55u8] + f + rest);
    lemma_skip_to_sync(buf, k);
    assert(b[0] == 0x55u8);
    assert(first_sync(b, 0));
    let c = choose|i: int| first_sync(b, i);
    lemma_first_sync_unique(b, c, 0);
    assert(b.skip(0) =~= b);
    assert(b[1] == 0x55u8);
    assert(b.skip(1) =~= f + rest);
    lemma_parse_encoded_frame(command, operation_id, payload, rest);
}

/// A whole frame (payload of at most 255 bytes) whose trailer is not the
/// CRC of its body is rejected, and removed from the buffer with nothing
/// after it.
pub proof fn lemma_corrupted_frame_rejected(
    command: u16,
    operation_id: u8,
    payload: Seq<u8>,
    lo: u8,
    hi: u8,
    rest: Seq<u8>,
)
    requires
        payload.len() <= 255,
        le_u16(lo, hi) != crc16_of(frame_body(command, operation_id, payload)),
    ensures
        next_frame(frame_body(command, operation_id, payload) + seq![lo, hi] + rest) == (
            rest,
            FrameStep::CrcMismatch,
        ),
{
    let body = frame_body(command, operation_id, payload);
    let buf = body + seq![lo, hi] + rest;
    let total: int = 10 + payload.len() as int;
    assert(buf[0] == 0x55u8);
    assert(first_sync(buf, 0));
    let c = choose|i: int| first_sync(buf, i);
    lemma_first_sync_unique(buf, c, 0);
    assert(buf.skip(0) =~= buf);
    assert(buf[5] as int == payload.len());
    assert(buf.take(total - 2) =~= body);
    assert(buf[total - 2] == lo);
    assert(buf[total - 1] == hi);
    assert(buf.skip(total) =~= rest);
}

/// A buffer holding only the first `n` bytes of a frame (payload of at most
/// 255 bytes) is left as it is, waiting for the rest.
pub proof fn lemma_partial_frame_waits(command: u16, operation_id: u8, payload: Seq<u8>, n: int)
    requires
        payload.len() <= 255,
        0 <= n < encode_frame(command, operation_id, payload).len(),
    ensures
        next_frame(encode_frame(command, operation_id, payload).take(n)) == (
            encode_frame(command, operation_id, payload).take(n),
            FrameStep::Pending,
        ),
{
    let buf = encode_frame(command, operation_id, payload).take(n);
    if buf.len() >= 8 {
        assert(buf[0] == 0x55u8);
        assert(first_sync(buf, 0));
        let c = choose|i: int| first_sync(buf, i);
        lemma_first_sync_unique(buf, c, 0);
        assert(buf.skip(0) =~= buf);
        assert(buf[5] as int == payload.len());
    }
}

/// Reading a frame only ever removes bytes from the front of the buffer:
/// what is left is a suffix of what was there.
pub proof fn lemma_next_frame_keeps_suffix(buf: Seq<u8>)
    ensures
        next_frame(buf).0.len() <= buf.len(),
        next_frame(buf).0 == buf.skip(buf.len() - next_frame(buf).0.len()),
    decreases buf.len(),
{
    if buf.len() < 8 {
        assert(buf.skip(0) =~= buf);
    } else if !(exists|i: int| first_sync(buf, i)) {
        assert(buf.skip(buf.len() as int) =~= Seq::<u8>::empty());
    } else {
        let k = choose|i: int| first_sync(buf, i);
        let b = buf.skip(k);
        if b.len() < 8 {
        } else if b[1] != 0x60u8 || b[2] != 0x01u8 {
            lemma_next_frame_keeps_suffix(b.skip(1));
            let r = next_frame(b.skip(1)).0;
            assert(r =~= buf.skip(buf.len() - r.len()));
        } else {
            let total = 10 + b[5] as int;
            if b.len() >= total {
                assert(b.skip(total) =~= buf.skip(k + total));
            }
        }
    }
}

impl EarPacket {
    /// Builds the frame for `command`, `operation_id` and `payload`.
    ///
    /// The length byte holds the payload length modulo 256.
    pub fn encode(command: u16, operation_id: u8, payload: &[u8]) -> (packet: Vec<u8>)
        ensures
            packet@ == encode_frame(command, operation_id, payload@),
            packet@.len() == payload@.len() + HEADER_LEN + CRC_LEN,
    {
        let mut packet: Vec<u8> = Vec::new();
        packet.push(HEADER_MAGIC[0]);
        packet.push(HEADER_MAGIC[1]);
        packet.push(HEADER_MAGIC[2]);
        packet.push((command % 256) as u8);
        packet.push((command / 256) as u8);
        packet.push((payload.len() % 256) as u8);
        packet.push(0x00);
        packet.push(operation_id);
        packet.extend_from_slice(payload);
        let crc = crc16(packet.as_slice());
        assert(packet@ =~= frame_body(command, operation_id, payload@));
        packet.push((crc % 256) as u8);
        packet.push((crc / 256) as u8);
        assert(packet@ =~= encode_frame(command, operation_id, payload@));
        packet
    }

    /// Reads the next frame from the front of a receive buffer, removing the
    /// bytes it consumes or discards; see [`next_frame`].
    pub fn try_parse(buffer: &mut Vec<u8>) -> (r: Result<Option<EarPacket>, EarError>)
        ensures
            final(buffer)@ == next_frame(old(buffer)@).0,
            next_frame(old(buffer)@).1 is Pending ==> r matches Ok(None),
            next_frame(old(buffer)@).1 is CrcMismatch ==> r matches Err(EarError::CrcMismatch),
            next_frame(old(buffer)@).1 matches FrameStep::Frame(m) ==> (r matches Ok(Some(p))
                && p@ == m),
    {
        let ghost orig = buffer@;
        loop
            invariant
                orig == old(buffer)@,
                next_frame(buffer@) == next_frame(orig),
            decreases buffer@.len(),
        {
            if buffer.len() < HEADER_LEN {
                assert(next_frame(buffer@) == (buffer@, FrameStep::Pending));
                return Ok(None);
            }
            let start = find_sync(buffer);
            if start == buffer.len() {
                assert(!(exists|i: int| first_sync(buffer@, i)));
                assert(next_frame(buffer@).0 == Seq::<u8>::empty());
                buffer.clear();
                return Ok(None);
            }
            proof {
                let c = choose|i: int| first_sync(buffer@, i);
                lemma_first_sync_unique(buffer@, c, start as int);
            }
            let ghost before = buffer@;
            if start > 0 {
                drop_front(buffer, start);
            }
            assert(buffer@ =~= before.skip(start as int));
            if buffer.len() < HEADER_LEN {
                return Ok(None);
            }
            if buffer[1] != HEADER_MAGIC[1] || buffer[2] != HEADER_MAGIC[2] {
                drop_front(buffer, 1);
                continue;
            }
            let payload_len = buffer[5] as usize;
            let total_len = HEADER_LEN + payload_len + CRC_LEN;
            if buffer.len() < total_len {
                return Ok(None);
            }
            let ghost framed = buffer@;
            let mut packet_bytes = buffer.split_off(total_len);
            core::mem::swap(buffer, &mut packet_bytes);
            assert(packet_bytes@ =~= framed.take(total_len as int));
            let crc_expected = (packet_bytes[total_len - 2] as u16) + (packet_bytes[total_len
                - 1] as u16) * 256;
            let body = vstd::slice::slice_subrange(packet_bytes.as_slice(), 0, total_len - CRC_LEN);
            let crc_actual = crc16(body);
            assert(body@ =~= framed.take(total_len - 2));
            if crc_actual != crc_expected {
                return Err(EarError::CrcMismatch);
            }
            let command = (packet_bytes[3] as u16) + (packet_bytes[4] as u16) * 256;
            let operation_id = packet_bytes[7];
            let payload = vstd::slice::slice_to_vec(
                vstd::slice::slice_subrange(packet_bytes.as_slice(), HEADER_LEN, total_len - CRC_LEN),
            );
            assert(payload@ =~= framed.subrange(8, total_len - 2));
            return Ok(Some(EarPacket { command, operation_id, payload }));
        }
    }
}

} // verus!
