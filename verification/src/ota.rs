//! The firmware upload engine.
//!
//! An upload is a conversation of fixed shape. The host opens it with
//! `OtaStart`, which carries the image size and its CRC-32, and the device
//! acknowledges. The host then streams the image in chunks of up to 4096
//! bytes, each announced by `OtaData` and sent as 64-byte packets, and waits
//! for the device's answer to every chunk. The device ends the upload with
//! `'C'` once it has received and checked the whole image.
//!
//! [`OtaSession`] is the host side of that conversation as a state machine:
//! it is fed the device's responses and says what to send next. It never
//! touches the bus itself.

use vstd::prelude::*;
use vstd::string::StringExecFns;
use crate::codec::packet_count;
use crate::codec::packets_hold_data;
use crate::codec::packets_of;
use crate::codec::PACKET_SIZE;
use crate::codec::split_packets;
use crate::codec::read_le32;
use crate::codec::le32_value;
use crate::codec::Command;
use crate::codec::OP_OTA_PROGRESS;
use crate::codec::OP_OTA_START;
use crate::codec::RESP_ERROR;
use crate::codec::RESP_OK;
use crate::codec::RESP_OTA_COMPLETE;
use crate::crc::crc32;
use crate::crc::crc32_spec;
use crate::error::Error;
use crate::error::ErrorView;
use crate::state::EsparrierState;
use crate::state::FeatureFlag;
use crate::text::append_decimal;
use crate::text::decimal_text;

verus! {

/// Largest firmware image that the device accepts: 1 MiB.
pub const OTA_MAX_SIZE: usize = 0x10_0000;

/// Largest number of image bytes in one chunk: 64 packets of 64 bytes.
pub const OTA_CHUNK_SIZE: usize = 4096;

/// What the device means by the code byte of an upload error.
pub open spec fn ota_error_text(code: u8) -> Seq<char> {
    if code == 0x61 {
        "OTA already in progress"@
    } else if code == 0x6E {
        "OTA not started"@
    } else if code == 0x69 {
        "OTA initialization failed"@
    } else if code == 0x77 {
        "OTA write failed"@
    } else if code == 0x63 {
        "CRC mismatch"@
    } else if code == 0x66 {
        "OTA flush failed"@
    } else if code == 0x73 {
        "Invalid firmware size"@
    } else if code == 0x70 {
        "OTA partition not found"@
    } else {
        "Unknown OTA error"@
    }
}

/// The error that an error response stands for. A response that is not of
/// the form `'e' 'O' code` is itself invalid.
pub open spec fn ota_error_of(resp: Seq<u8>) -> ErrorView {
    if resp.len() >= 3 && resp[1] == OP_OTA_START {
        ErrorView::OtaError(ota_error_text(resp[2]))
    } else {
        ErrorView::InvalidResponse
    }
}

/// Decodes an error response of the upload protocol. The first byte, which
/// marks the response as an error, is not looked at.
pub fn parse_ota_error(resp: &[u8]) -> (e: Error)
    ensures
        e@ == ota_error_of(resp@),
{
    if resp.len() >= 3 && resp[1] == OP_OTA_START {
        let code: u8 = resp[2];
        let text = if code == 0x61 {
            "OTA already in progress"
        } else if code == 0x6E {
            "OTA not started"
        } else if code == 0x69 {
            "OTA initialization failed"
        } else if code == 0x77 {
            "OTA write failed"
        } else if code == 0x63 {
            "CRC mismatch"
        } else if code == 0x66 {
            "OTA flush failed"
        } else if code == 0x73 {
            "Invalid firmware size"
        } else if code == 0x70 {
            "OTA partition not found"
        } else {
            "Unknown OTA error"
        };
        Error::OtaError(text.to_owned())
    } else {
        Error::InvalidResponse
    }
}

/// What a response to `OtaProgress` says.
pub enum ProgressView {
    /// An upload is under way: bytes received, and bytes expected.
    Uploading(u32, u32),
    /// No upload is under way.
    Idle,
    /// The device reported an error, or the response is malformed.
    Failed(ErrorView),
}

/// Reads a response to `OtaProgress`.
pub open spec fn progress_of(resp: Seq<u8>) -> ProgressView {
    if resp.len() == 0 {
        ProgressView::Failed(ErrorView::InvalidResponse)
    } else if resp[0] == OP_OTA_PROGRESS && resp.len() >= 9 {
        ProgressView::Uploading(
            le32_value(resp[1], resp[2], resp[3], resp[4]),
            le32_value(resp[5], resp[6], resp[7], resp[8]),
        )
    } else if resp[0] == RESP_OK {
        ProgressView::Idle
    } else if resp[0] == RESP_ERROR {
        ProgressView::Failed(ota_error_of(resp))
    } else {
        ProgressView::Failed(ErrorView::InvalidResponse)
    }
}

/// Decodes the response to `OtaProgress`: `Some((received, total))` while an
/// upload is under way, `None` when none is.
pub fn decode_ota_progress(resp: &[u8]) -> (r: Result<Option<(u32, u32)>, Error>)
    ensures
        match progress_of(resp@) {
            ProgressView::Uploading(received, total) => r == Ok::<Option<(u32, u32)>, Error>(
                Some((received, total)),
            ),
            ProgressView::Idle => r == Ok::<Option<(u32, u32)>, Error>(None),
            ProgressView::Failed(e) => r is Err && r->Err_0@ == e,
        },
{
    if resp.len() == 0 {
        return Err(Error::InvalidResponse);
    }
    if resp[0] == OP_OTA_PROGRESS && resp.len() >= 9 {
        let received = read_le32(resp[1], resp[2], resp[3], resp[4]);
        let total = read_le32(resp[5], resp[6], resp[7], resp[8]);
        Ok(Some((received, total)))
    } else if resp[0] == RESP_OK {
        Ok(None)
    } else if resp[0] == RESP_ERROR {
        Err(parse_ota_error(resp))
    } else {
        Err(Error::InvalidResponse)
    }
}

/// Whether an image of `len` bytes can be uploaded.
pub open spec fn valid_image_size(len: nat) -> bool {
    1 <= len <= OTA_MAX_SIZE
}

/// The message of the error for an image of `len` bytes that cannot be
/// uploaded.
pub open spec fn invalid_size_text(len: nat) -> Seq<char> {
    "Invalid firmware size: "@ + decimal_text(len) + " (max 1048576 bytes)"@
}

/// Mathematical model of an [`OtaSession`].
pub struct OtaSessionView {
    /// The image being uploaded.
    pub firmware: Seq<u8>,
    /// The CRC-32 announced for the image.
    pub crc: u32,
    /// How many bytes of the image have been handed out for sending.
    pub offset: nat,
    /// How many bytes of the image the device has acknowledged.
    pub last_ack_offset: nat,
    /// Whether `OtaStart` has been acknowledged and chunks are going out.
    pub streaming: bool,
}

impl OtaSessionView {
    /// What holds of every session.
    pub open spec fn wf(self) -> bool {
        &&& valid_image_size(self.firmware.len())
        &&& self.crc == crc32_spec(self.firmware)
        &&& self.last_ack_offset <= self.offset <= self.firmware.len()
        &&& self.streaming <==> self.offset > 0
        &&& self.offset % (OTA_CHUNK_SIZE as nat) == 0 || self.offset == self.firmware.len()
    }

    /// The session that waits for the acknowledgement of `OtaStart`.
    pub open spec fn started(firmware: Seq<u8>) -> OtaSessionView {
        OtaSessionView {
            firmware,
            crc: crc32_spec(firmware),
            offset: 0,
            last_ack_offset: 0,
            streaming: false,
        }
    }

    /// Length of the chunk that starts at the current offset.
    pub open spec fn chunk_len(self) -> nat {
        if self.firmware.len() - self.offset > OTA_CHUNK_SIZE {
            OTA_CHUNK_SIZE as nat
        } else {
            (self.firmware.len() - self.offset) as nat
        }
    }

    /// The bytes of the chunk that starts at the current offset.
    pub open spec fn chunk(self) -> Seq<u8> {
        self.firmware.subrange(self.offset as int, (self.offset + self.chunk_len()) as int)
    }

    /// The session after the device has acknowledged everything handed out
    /// so far and the next chunk has been handed out.
    pub open spec fn advanced(self) -> OtaSessionView {
        OtaSessionView {
            firmware: self.firmware,
            crc: self.crc,
            offset: self.offset + self.chunk_len(),
            last_ack_offset: self.offset,
            streaming: true,
        }
    }

    /// The step that hands out the next chunk.
    pub open spec fn send_next(self) -> OtaStepView {
        OtaStepView::Send(
            self.advanced(),
            OtaChunkView {
                header: Command::OtaData {
                    packets: packets_of(self.chunk()).len() as u8,
                    length: self.chunk_len() as u16,
                },
                packets: packets_of(self.chunk()),
                sent: self.offset + self.chunk_len(),
                total: self.firmware.len(),
            },
        )
    }

    /// The step that the response `resp` leads to.
    pub open spec fn next(self, resp: Seq<u8>) -> OtaStepView {
        if resp.len() == 0 {
            OtaStepView::Failed(ErrorView::InvalidResponse)
        } else if !self.streaming {
            if resp[0] == RESP_ERROR {
                OtaStepView::Failed(ota_error_of(resp))
            } else if resp[0] == RESP_OK {
                self.send_next()
            } else {
                OtaStepView::Failed(ErrorView::InvalidResponse)
            }
        } else {
            if resp[0] == RESP_OTA_COMPLETE {
                OtaStepView::Complete
            } else if resp[0] == OP_OTA_PROGRESS || resp[0] == RESP_OK {
                if self.offset < self.firmware.len() {
                    self.send_next()
                } else {
                    OtaStepView::Failed(ErrorView::OtaError("OTA did not complete as expected"@))
                }
            } else if resp[0] == RESP_ERROR {
                OtaStepView::Failed(ota_error_of(resp))
            } else {
                OtaStepView::Failed(ErrorView::InvalidResponse)
            }
        }
    }
}

/// A chunk is never empty and never larger than 4096 bytes, and its header
/// announces exactly its packets and its length.
pub proof fn chunk_is_announced(s: OtaSessionView)
    requires
        s.wf(),
        s.offset < s.firmware.len(),
    ensures
        1 <= s.chunk_len() <= OTA_CHUNK_SIZE,
        s.chunk().len() == s.chunk_len(),
        s.send_next() matches OtaStepView::Send(_, chunk) && {
            &&& chunk.header == Command::OtaData {
                packets: packet_count(s.chunk_len()) as u8,
                length: s.chunk_len() as u16,
            }
            &&& 1 <= packet_count(s.chunk_len()) <= 64
            &&& chunk.packets.len() == packet_count(s.chunk_len())
            &&& chunk.sent == s.offset + s.chunk_len()
            &&& chunk.total == s.firmware.len()
        },
{
}

/// The packets of a chunk carry the image bytes from the session's offset
/// on, in order, and zeros after the end of the chunk.
pub proof fn chunk_carries_image(s: OtaSessionView, k: int)
    requires
        s.wf(),
        s.offset < s.firmware.len(),
        0 <= k < PACKET_SIZE * packet_count(s.chunk_len()),
    ensures
        s.send_next() matches OtaStepView::Send(_, chunk) && {
            &&& 0 <= k / 64 < chunk.packets.len()
            &&& chunk.packets[k / 64].len() == PACKET_SIZE
            &&& chunk.packets[k / 64][k % 64] == (if k < s.chunk_len() {
                s.firmware[s.offset + k]
            } else {
                0u8
            })
        },
{
    packets_hold_data(s.chunk(), k);
}

/// A step keeps the session well-formed. When it hands out a chunk, the
/// image and its checksum stay, the offset moves forward by the chunk, and
/// all that was handed out before counts as acknowledged.
pub proof fn step_keeps_session(s: OtaSessionView, resp: Seq<u8>)
    requires
        s.wf(),
    ensures
        s.next(resp) matches OtaStepView::Send(after, chunk) ==> {
            &&& after.wf()
            &&& after.streaming
            &&& after.firmware == s.firmware
            &&& after.crc == s.crc
            &&& after.offset == s.offset + s.chunk_len()
            &&& after.offset > s.offset
            &&& after.last_ack_offset == s.offset
            &&& chunk.sent == after.offset
        },
{
}

/// The upload never goes on after the whole image is out: once the last
/// chunk has been handed out, every response ends the upload.
pub proof fn last_chunk_ends_upload(s: OtaSessionView, resp: Seq<u8>)
    requires
        s.wf(),
        s.offset == s.firmware.len(),
    ensures
        !(s.next(resp) is Send),
        s.next(resp) is Complete <==> resp.len() > 0 && resp[0] == RESP_OTA_COMPLETE,
{
}

/// Mathematical model of an [`OtaChunk`].
pub struct OtaChunkView {
    pub header: Command,
    pub packets: Seq<Seq<u8>>,
    pub sent: nat,
    pub total: nat,
}

/// Mathematical model of an [`OtaStep`].
pub enum OtaStepView {
    Send(OtaSessionView, OtaChunkView),
    Complete,
    Failed(ErrorView),
}

/// One chunk of the image, ready for the bus.
pub struct OtaChunk {
    /// The `OtaData` command that announces the chunk.
    pub header: Command,
    /// The chunk as 64-byte packets, the last one filled up with zeros.
    pub packets: Vec<Vec<u8>>,
    /// How many bytes of the image will have been sent once this chunk is out.
    pub sent: usize,
    /// Size of the image.
    pub total: usize,
}

impl View for OtaChunk {
    type V = OtaChunkView;

    open spec fn view(&self) -> OtaChunkView {
        OtaChunkView {
            header: self.header,
            packets: self.packets.deep_view(),
            sent: self.sent as nat,
            total: self.total as nat,
        }
    }
}

/// What the host does next in an upload.
pub enum OtaStep {
    /// Send the chunk's header and packets, report `sent` of `total` as
    /// progress, then read the device's response and hand it to the session.
    Send(OtaSession, OtaChunk),
    /// The device has accepted the image and will restart.
    Complete,
    /// The upload has failed.
    Failed(Error),
}

impl View for OtaStep {
    type V = OtaStepView;

    open spec fn view(&self) -> OtaStepView {
        match *self {
            OtaStep::Send(session, chunk) => OtaStepView::Send(session@, chunk@),
            OtaStep::Complete => OtaStepView::Complete,
            OtaStep::Failed(e) => OtaStepView::Failed(e@),
        }
    }
}

/// The host side of a firmware upload that is under way.
pub struct OtaSession {
    firmware: Vec<u8>,
    crc: u32,
    offset: usize,
    last_ack_offset: usize,
    streaming: bool,
}

impl View for OtaSession {
    type V = OtaSessionView;

    closed spec fn view(&self) -> OtaSessionView {
        OtaSessionView {
            firmware: self.firmware@,
            crc: self.crc,
            offset: self.offset as nat,
            last_ack_offset: self.last_ack_offset as nat,
            streaming: self.streaming,
        }
    }
}

impl OtaSession {
    #[verifier::type_invariant]
    spec fn inv(&self) -> bool {
        self@.wf()
    }

    /// Opens an upload of `firmware` to the device that reported `state`.
    ///
    /// On success the caller sends the returned `OtaStart` command and hands
    /// the device's response to the session. An image that is empty or larger
    /// than 1 MiB is refused, and so is a device whose firmware lacks the
    /// upload capability; in both cases nothing is to be sent.
    pub fn begin(state: &EsparrierState, firmware: Vec<u8>) -> (r: Result<
        (OtaSession, Command),
        Error,
    >)
        ensures
            r is Ok <==> valid_image_size(firmware@.len()) && state.supports(FeatureFlag::Ota),
            r matches Ok((session, start)) ==> {
                &&& session@ == OtaSessionView::started(firmware@)
                &&& start == Command::OtaStart {
                    size: firmware@.len() as u32,
                    crc: crc32_spec(firmware@),
                }
            },
            r matches Err(e) ==> e@ == (if valid_image_size(firmware@.len()) {
                ErrorView::OtaNotSupported
            } else {
                ErrorView::OtaError(invalid_size_text(firmware@.len()))
            }),
    {
        let total = firmware.len();
        if total == 0 || total > OTA_MAX_SIZE {
            let mut text = "Invalid firmware size: ".to_owned();
            append_decimal(&mut text, total);
            text.append(" (max 1048576 bytes)");
            return Err(Error::OtaError(text));
        }
        if !state.has_ota_support() {
            return Err(Error::OtaNotSupported);
        }
        let crc = crc32(firmware.as_slice());
        let start = Command::OtaStart { size: total as u32, crc };
        let session = OtaSession {
            firmware,
            crc,
            offset: 0,
            last_ack_offset: 0,
            streaming: false,
        };
        Ok((session, start))
    }

    /// Size of the image.
    pub fn total(&self) -> (n: usize)
        ensures
            n == self@.firmware.len(),
            self@.wf(),
    {
        proof {
            use_type_invariant(self);
        }
        self.firmware.len()
    }

    /// The CRC-32 announced for the image.
    pub fn crc(&self) -> (c: u32)
        ensures
            c == self@.crc,
            c == crc32_spec(self@.firmware),
    {
        proof {
            use_type_invariant(self);
        }
        self.crc
    }

    /// How many bytes of the image have been handed out for sending.
    pub fn offset(&self) -> (n: usize)
        ensures
            n == self@.offset,
    {
        self.offset
    }

    /// How many bytes of the image the device has acknowledged.
    pub fn last_ack_offset(&self) -> (n: usize)
        ensures
            n == self@.last_ack_offset,
    {
        self.last_ack_offset
    }

    /// Whether `OtaStart` has been acknowledged.
    pub fn is_streaming(&self) -> (b: bool)
        ensures
            b == self@.streaming,
    {
        self.streaming
    }

    /// Takes the device's response to what was sent last and says what to do
    /// next.
    ///
    /// While the session waits for the acknowledgement of `OtaStart`, `'o'`
    /// releases the first chunk. After a chunk, `'P'` and `'o'` release the
    /// next one, and `'C'` completes the upload, whether or not chunks are
    /// left. An error response ends the upload with the error it names. If
    /// the device acknowledges the last chunk without completing, the upload
    /// has failed.
    pub fn handle_response(self, resp: &[u8]) -> (step: OtaStep)
        ensures
            step@ == self@.next(resp@),
    {
        proof {
            use_type_invariant(&self);
        }
        if resp.len() == 0 {
            return OtaStep::Failed(Error::InvalidResponse);
        }
        let first: u8 = resp[0];
        if !self.streaming {
            if first == RESP_ERROR {
                return OtaStep::Failed(parse_ota_error(resp));
            }
            if first != RESP_OK {
                return OtaStep::Failed(Error::InvalidResponse);
            }
        } else {
            if first == RESP_OTA_COMPLETE {
                return OtaStep::Complete;
            }
            if first == RESP_ERROR {
                return OtaStep::Failed(parse_ota_error(resp));
            }
            if first != OP_OTA_PROGRESS && first != RESP_OK {
                return OtaStep::Failed(Error::InvalidResponse);
            }
            if self.offset >= self.firmware.len() {
                return OtaStep::Failed(
                    Error::OtaError("OTA did not complete as expected".to_owned()),
                );
            }
        }
        self.release_chunk()
    }

    /// Hands out the chunk at the current offset.
    fn release_chunk(self) -> (step: OtaStep)
        requires
            self@.offset < self@.firmware.len(),
        ensures
            step@ == self@.send_next(),
    {
        proof {
            use_type_invariant(&self);
        }
        let total = self.firmware.len();
        let start = self.offset;
        let end: usize = if total - start > OTA_CHUNK_SIZE {
            start + OTA_CHUNK_SIZE
        } else {
            total
        };
        let packets = split_packets(
            vstd::slice::slice_subrange(self.firmware.as_slice(), start, end),
        );
        let ghost chunk = self@.chunk();
        assert(packets.deep_view().len() == packets_of(chunk).len());
        assert(packets@.len() == packets.deep_view().len());
        let header = Command::OtaData {
            packets: packets.len() as u8,
            length: (end - start) as u16,
        };
        let next = OtaSession {
            firmware: self.firmware,
            crc: self.crc,
            offset: end,
            last_ack_offset: start,
            streaming: true,
        };
        OtaStep::Send(next, OtaChunk { header, packets, sent: end, total })
    }
}

} // verus!
