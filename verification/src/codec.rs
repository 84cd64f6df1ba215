//! The command codec: how requests are laid out on the wire and how the
//! fixed-layout responses are read.
//!
//! Every command is one bulk OUT packet of 64 bytes, the command bytes first
//! and zeros after them. Multi-byte integers are little-endian.

use vstd::prelude::*;
use crate::error::Error;
use crate::error::ErrorView;
use crate::state::EsparrierState;
use crate::state::STATE_REPORT_LEN;

verus! {

/// Size of a bulk packet in either direction.
pub const PACKET_SIZE: usize = 64;

/// `'s'`: asks for the device state.
pub const OP_GET_STATE: u8 = 0x73;
/// `'r'`: asks for the stored configuration.
pub const OP_READ_CONFIG: u8 = 0x72;
/// `'w'`: uploads a pending configuration.
pub const OP_WRITE_CONFIG: u8 = 0x77;
/// `'c'`: persists the pending configuration and restarts the device.
pub const OP_COMMIT_CONFIG: u8 = 0x63;
/// `'b'`: restarts the device.
pub const OP_REBOOT: u8 = 0x62;
/// `'k'`: switches keep-awake on or off.
pub const OP_KEEP_AWAKE: u8 = 0x6B;
/// `'O'`: opens a firmware upload.
pub const OP_OTA_START: u8 = 0x4F;
/// `'D'`: announces a chunk of firmware.
pub const OP_OTA_DATA: u8 = 0x44;
/// `'A'`: abandons the firmware upload.
pub const OP_OTA_ABORT: u8 = 0x41;
/// `'P'`: asks how far the firmware upload has come; also the first byte of
/// the answer.
pub const OP_OTA_PROGRESS: u8 = 0x50;

/// `'o'`: first byte of the response that acknowledges a command.
pub const RESP_OK: u8 = 0x6F;
/// `'e'`: first byte of an error response.
pub const RESP_ERROR: u8 = 0x65;
/// `'C'`: first byte of the response that ends a firmware upload.
pub const RESP_OTA_COMPLETE: u8 = 0x43;

/// The two bytes of `v`, low byte first.
pub open spec fn le16(v: u16) -> Seq<u8> {
    seq![(v % 256) as u8, (v / 256) as u8]
}

/// The four bytes of `v`, low byte first.
pub open spec fn le32(v: u32) -> Seq<u8> {
    seq![
        (v % 256) as u8,
        (v / 256 % 256) as u8,
        (v / 65536 % 256) as u8,
        (v / 16777216) as u8,
    ]
}

/// The number whose little-endian bytes are `b0`, `b1`, `b2`, `b3`.
pub open spec fn le32_value(b0: u8, b1: u8, b2: u8, b3: u8) -> u32 {
    (b0 + 256 * b1 + 65536 * b2 + 16777216 * b3) as u32
}

/// Reading the little-endian bytes of a number gives the number back.
pub proof fn le32_round_trip(v: u32)
    ensures
        le32(v).len() == 4,
        le32_value(le32(v)[0], le32(v)[1], le32(v)[2], le32(v)[3]) == v,
{
}

/// Writing a number read from four bytes gives the four bytes back.
pub proof fn le32_value_round_trip(b0: u8, b1: u8, b2: u8, b3: u8)
    ensures
        le32(le32_value(b0, b1, b2, b3)) == seq![b0, b1, b2, b3],
{
    let v = le32_value(b0, b1, b2, b3) as int;
    let high = b1 + 256 * b2 + 65536 * b3;
    let higher = b2 + 256 * b3;
    assert(v % 256 == b0 && v / 256 == high) by (nonlinear_arith)
        requires
            v == b0 + 256 * high,
            0 <= b0 < 256,
    ;
    assert(high % 256 == b1 && high / 256 == higher) by (nonlinear_arith)
        requires
            high == b1 + 256 * higher,
            0 <= b1 < 256,
    ;
    assert(higher % 256 == b2 && higher / 256 == b3) by (nonlinear_arith)
        requires
            higher == b2 + 256 * b3,
            0 <= b2 < 256,
    ;
    assert(v / 65536 == higher && v / 16777216 == b3) by (nonlinear_arith)
        requires
            v / 256 == high,
            high / 256 == higher,
            higher / 256 == b3,
            0 <= v,
    ;
    assert(le32(le32_value(b0, b1, b2, b3)) =~= seq![b0, b1, b2, b3]);
}

/// Reads a little-endian `u32` from four bytes.
pub fn read_le32(b0: u8, b1: u8, b2: u8, b3: u8) -> (v: u32)
    ensures
        v == le32_value(b0, b1, b2, b3),
{
    (b0 as u32) + 256 * (b1 as u32) + 65536 * (b2 as u32) + 16777216 * (b3 as u32)
}

/// `n` zero bytes.
pub open spec fn zeros(n: nat) -> Seq<u8> {
    Seq::new(n, |i: int| 0u8)
}

/// A packet's worth of bytes that starts with `data` and ends in zeros.
pub open spec fn padded(data: Seq<u8>) -> Seq<u8>
    recommends
        data.len() <= PACKET_SIZE,
{
    data + zeros((PACKET_SIZE - data.len()) as nat)
}

/// Fills `data` up to a full packet with zeros.
pub fn frame(data: &[u8]) -> (packet: Vec<u8>)
    requires
        data@.len() <= PACKET_SIZE,
    ensures
        packet@ == padded(data@),
        packet@.len() == PACKET_SIZE,
{
    let mut packet: Vec<u8> = Vec::with_capacity(PACKET_SIZE);
    let mut i: usize = 0;
    while i < data.len()
        invariant
            i <= data@.len() <= PACKET_SIZE,
            packet@ == data@.take(i as int),
        decreases data@.len() - i,
    {
        packet.push(data[i]);
        i = i + 1;
    }
    assert(data@.take(i as int) == data@);
    while i < PACKET_SIZE
        invariant
            data@.len() <= i <= PACKET_SIZE,
            packet@ == data@ + zeros((i - data@.len()) as nat),
        decreases PACKET_SIZE - i,
    {
        packet.push(0u8);
        i = i + 1;
    }
    packet
}

/// How many packets it takes to carry `n` bytes.
pub open spec fn packet_count(n: nat) -> nat {
    (n + PACKET_SIZE - 1) as nat / (PACKET_SIZE as nat)
}

/// The `i`-th packet's share of `data`: 64 bytes, or what is left of `data`.
pub open spec fn piece(data: Seq<u8>, i: int) -> Seq<u8> {
    let end = if PACKET_SIZE * (i + 1) <= data.len() {
        PACKET_SIZE * (i + 1)
    } else {
        data.len() as int
    };
    data.subrange(PACKET_SIZE * i, end)
}

/// `data` cut into packets, the last one filled up with zeros.
pub open spec fn packets_of(data: Seq<u8>) -> Seq<Seq<u8>> {
    Seq::new(packet_count(data.len()), |i: int| padded(piece(data, i)))
}

/// The bytes of a run of packets are the data they were cut from, and zeros
/// after the end of the data.
pub proof fn packets_hold_data(data: Seq<u8>, k: int)
    requires
        0 <= k < PACKET_SIZE * packet_count(data.len()),
    ensures
        0 <= k / 64 < packets_of(data).len(),
        packets_of(data)[k / 64].len() == PACKET_SIZE,
        packets_of(data)[k / 64][k % 64] == (if k < data.len() { data[k] } else { 0u8 }),
{
    let i = k / 64;
    let p = piece(data, i);
    assert(padded(p).len() == PACKET_SIZE);
    if k < data.len() {
        assert(p[k % 64] == data[k]);
    }
}

/// Cuts `data` into packets of 64 bytes and fills the last one up with zeros.
pub fn split_packets(data: &[u8]) -> (packets: Vec<Vec<u8>>)
    ensures
        packets.deep_view() == packets_of(data@),
{
    let mut packets: Vec<Vec<u8>> = Vec::new();
    let mut start: usize = 0;
    while start < data.len()
        invariant
            start <= data@.len(),
            start == PACKET_SIZE * packets@.len() || (start == data@.len() && packets@.len()
                == packet_count(data@.len())),
            forall|j: int|
                0 <= j < packets@.len() ==> (#[trigger] packets@[j])@ == padded(piece(data@, j)),
        decreases data@.len() - start,
    {
        let end: usize = if data.len() - start > PACKET_SIZE {
            start + PACKET_SIZE
        } else {
            data.len()
        };
        let packet = frame(vstd::slice::slice_subrange(data, start, end));
        packets.push(packet);
        start = end;
    }
    assert(packets.deep_view() =~~= packets_of(data@));
    packets
}

/// A request to the device.
#[derive(Clone, Copy, Debug, PartialEq, Eq, Structural)]
pub enum Command {
    GetState,
    ReadConfig,
    /// Announces `num_blocks` packets of configuration data.
    WriteConfig { num_blocks: u8 },
    CommitConfig,
    Reboot,
    KeepAwake { enable: bool },
    /// Announces a firmware image of `size` bytes with checksum `crc`.
    OtaStart { size: u32, crc: u32 },
    /// Announces `packets` packets that hold `length` bytes of firmware.
    OtaData { packets: u8, length: u16 },
    OtaAbort,
    OtaProgress,
}

impl Command {
    /// The opcode of the command.
    pub open spec fn opcode(self) -> u8 {
        match self {
            Command::GetState => OP_GET_STATE,
            Command::ReadConfig => OP_READ_CONFIG,
            Command::WriteConfig { .. } => OP_WRITE_CONFIG,
            Command::CommitConfig => OP_COMMIT_CONFIG,
            Command::Reboot => OP_REBOOT,
            Command::KeepAwake { .. } => OP_KEEP_AWAKE,
            Command::OtaStart { .. } => OP_OTA_START,
            Command::OtaData { .. } => OP_OTA_DATA,
            Command::OtaAbort => OP_OTA_ABORT,
            Command::OtaProgress => OP_OTA_PROGRESS,
        }
    }

    /// The parameters of the command as they follow the opcode.
    pub open spec fn params(self) -> Seq<u8> {
        match self {
            Command::WriteConfig { num_blocks } => seq![num_blocks],
            Command::KeepAwake { enable } => seq![if enable { 1u8 } else { 0u8 }],
            Command::OtaStart { size, crc } => le32(size) + le32(crc),
            Command::OtaData { packets, length } => seq![packets] + le16(length),
            _ => Seq::empty(),
        }
    }

    /// The bytes of the command: the opcode, then the parameters.
    pub open spec fn wire(self) -> Seq<u8> {
        seq![self.opcode()] + self.params()
    }

    /// Encodes the command, without padding.
    pub fn encode(&self) -> (bytes: Vec<u8>)
        ensures
            bytes@ == self.wire(),
            1 <= bytes@.len() <= 9,
    {
        let mut bytes: Vec<u8> = Vec::new();
        match *self {
            Command::GetState => {
                bytes.push(OP_GET_STATE);
            },
            Command::ReadConfig => {
                bytes.push(OP_READ_CONFIG);
            },
            Command::WriteConfig { num_blocks } => {
                bytes.push(OP_WRITE_CONFIG);
                bytes.push(num_blocks);
            },
            Command::CommitConfig => {
                bytes.push(OP_COMMIT_CONFIG);
            },
            Command::Reboot => {
                bytes.push(OP_REBOOT);
            },
            Command::KeepAwake { enable } => {
                bytes.push(OP_KEEP_AWAKE);
                bytes.push(if enable { 1u8 } else { 0u8 });
            },
            Command::OtaStart { size, crc } => {
                bytes.push(OP_OTA_START);
                push_le32(&mut bytes, size);
                push_le32(&mut bytes, crc);
            },
            Command::OtaData { packets, length } => {
                bytes.push(OP_OTA_DATA);
                bytes.push(packets);
                bytes.push((length % 256) as u8);
                bytes.push((length / 256) as u8);
            },
            Command::OtaAbort => {
                bytes.push(OP_OTA_ABORT);
            },
            Command::OtaProgress => {
                bytes.push(OP_OTA_PROGRESS);
            },
        }
        assert(bytes@ =~= self.wire());
        bytes
    }

    /// Encodes the command as the packet that goes out on the bus.
    pub fn packet(&self) -> (packet: Vec<u8>)
        ensures
            packet@ == padded(self.wire()),
            packet@.len() == PACKET_SIZE,
            packet@[0] == self.opcode(),
    {
        let bytes = self.encode();
        frame(bytes.as_slice())
    }
}

/// Appends the little-endian bytes of `v`.
fn push_le32(out: &mut Vec<u8>, v: u32)
    ensures
        final(out)@ == old(out)@ + le32(v),
{
    out.push((v % 256) as u8);
    out.push((v / 256 % 256) as u8);
    out.push((v / 65536 % 256) as u8);
    out.push((v / 16777216) as u8);
    assert(out@ =~= old(out)@ + le32(v));
}

/// Whether `resp` is the plain acknowledgement: the single byte `'o'`.
pub open spec fn is_ok_response(resp: Seq<u8>) -> bool {
    resp == seq![RESP_OK]
}

/// Checks the response to a command that the device only acknowledges.
pub fn expect_ok(resp: &[u8]) -> (r: Result<(), Error>)
    ensures
        r is Ok <==> is_ok_response(resp@),
        r matches Err(e) ==> e@ == ErrorView::InvalidResponse,
{
    if resp.len() != 1 || resp[0] != RESP_OK {
        return Err(Error::InvalidResponse);
    }
    assert(resp@ =~= seq![RESP_OK]);
    Ok(())
}

/// Whether `resp` is a state report: at least 14 bytes that start with `'s'`.
pub open spec fn is_state_report(resp: Seq<u8>) -> bool {
    resp.len() >= STATE_REPORT_LEN && resp[0] == OP_GET_STATE
}

/// Decodes the response to `GetState`.
pub fn decode_state(resp: &[u8]) -> (r: Result<EsparrierState, Error>)
    ensures
        r is Ok <==> is_state_report(resp@),
        r matches Ok(state) ==> state.decodes(resp@),
        r matches Err(e) ==> e@ == ErrorView::InvalidResponse,
{
    if resp.len() < STATE_REPORT_LEN || resp[0] != OP_GET_STATE {
        return Err(Error::InvalidResponse);
    }
    Ok(EsparrierState::from_bytes(resp))
}

} // verus!
