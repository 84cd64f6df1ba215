//! Moving a configuration between host and device.
//!
//! A configuration travels as JSON text cut into 64-byte blocks. Reading, the
//! device announces the number of blocks and then sends them; the host puts
//! the text together again and drops what the framing added. Writing, the
//! host announces the number of blocks and sends them, the last one filled
//! up with zeros.

use vstd::prelude::*;
use crate::codec::packet_count;
use crate::codec::packets_of;
use crate::codec::padded;
use crate::codec::piece;
use crate::codec::zeros;
use crate::codec::PACKET_SIZE;
use crate::codec::split_packets;
use crate::codec::Command;
use crate::codec::OP_READ_CONFIG;
use crate::error::Error;
use crate::error::ErrorView;

verus! {

/// Largest byte that belongs to configuration text. Bytes above it are
/// reserved by the protocol.
pub const MAX_CONFIG_BYTE: u8 = 0xF4;

/// Whether the byte `b` belongs to configuration text: it is neither a
/// padding zero nor reserved.
pub open spec fn is_config_byte(b: u8) -> bool {
    b != 0 && b <= MAX_CONFIG_BYTE
}

/// `data` without the bytes that do not belong to configuration text.
pub open spec fn retained(data: Seq<u8>) -> Seq<u8> {
    data.filter(|b: u8| is_config_byte(b))
}

/// `block` without its last byte if that is a zero.
pub open spec fn stripped(block: Seq<u8>) -> Seq<u8> {
    if block.len() > 0 && block.last() == 0 {
        block.drop_last()
    } else {
        block
    }
}

/// The blocks, each stripped, one after the other.
pub open spec fn joined(blocks: Seq<Seq<u8>>) -> Seq<u8>
    decreases blocks.len(),
{
    if blocks.len() == 0 {
        Seq::empty()
    } else {
        stripped(blocks.first()) + joined(blocks.drop_first())
    }
}

/// The configuration text that a run of blocks carries.
pub open spec fn payload_of(blocks: Seq<Seq<u8>>) -> Seq<u8> {
    retained(joined(blocks))
}

/// Mathematical model of a [`ConfigReader`].
pub struct ConfigReaderView {
    /// How many blocks are still to come.
    pub remaining: nat,
    /// The blocks received so far, each stripped, one after the other.
    pub data: Seq<u8>,
}

/// Mathematical model of a [`ConfigStep`].
pub enum ConfigStepView {
    Read(ConfigReaderView),
    Done(Seq<u8>),
    Failed(ErrorView),
}

impl ConfigReaderView {
    /// The step that the header `header` leads to: it must be the opcode
    /// `'r'` and the number of blocks, and nothing else.
    pub open spec fn begun(header: Seq<u8>) -> ConfigStepView {
        if header.len() != 2 || header[0] != OP_READ_CONFIG {
            ConfigStepView::Failed(ErrorView::InvalidResponse)
        } else if header[1] == 0 {
            ConfigStepView::Done(Seq::empty())
        } else {
            ConfigStepView::Read(
                ConfigReaderView { remaining: header[1] as nat, data: Seq::empty() },
            )
        }
    }

    /// The step that the block `block` leads to.
    pub open spec fn next(self, block: Seq<u8>) -> ConfigStepView {
        let data = self.data + stripped(block);
        if self.remaining <= 1 {
            ConfigStepView::Done(retained(data))
        } else {
            ConfigStepView::Read(
                ConfigReaderView { remaining: (self.remaining - 1) as nat, data },
            )
        }
    }

    /// The step that the blocks `blocks`, taken in order, lead to.
    pub open spec fn run(self, blocks: Seq<Seq<u8>>) -> ConfigStepView
        decreases blocks.len(),
    {
        if blocks.len() == 0 {
            ConfigStepView::Read(self)
        } else {
            match self.next(blocks.first()) {
                ConfigStepView::Read(reader) => reader.run(blocks.drop_first()),
                step => step,
            }
        }
    }
}

/// A reader that is given as many blocks as the header announced ends with
/// the text that those blocks carry: every block without its trailing zero,
/// one after the other, and without the bytes that are no text.
pub proof fn reader_assembles_payload(reader: ConfigReaderView, blocks: Seq<Seq<u8>>)
    requires
        reader.remaining == blocks.len(),
        blocks.len() >= 1,
    ensures
        reader.run(blocks) == ConfigStepView::Done(retained(reader.data + joined(blocks))),
    decreases blocks.len(),
{
    let first = blocks.first();
    let rest = blocks.drop_first();
    if blocks.len() == 1 {
        assert(joined(rest) =~= Seq::<u8>::empty());
        assert(reader.data + joined(blocks) =~= reader.data + stripped(first));
    } else {
        let after = ConfigReaderView {
            remaining: (reader.remaining - 1) as nat,
            data: reader.data + stripped(first),
        };
        reader_assembles_payload(after, rest);
        assert(after.data + joined(rest) =~= reader.data + joined(blocks));
    }
}

/// A whole read: the header announces the blocks, and the blocks that follow
/// give the text that they carry.
pub proof fn read_gives_payload(header: Seq<u8>, blocks: Seq<Seq<u8>>)
    requires
        header.len() == 2,
        header[0] == OP_READ_CONFIG,
        header[1] == blocks.len(),
    ensures
        match ConfigReaderView::begun(header) {
            ConfigStepView::Read(reader) => reader.run(blocks) == ConfigStepView::Done(
                payload_of(blocks),
            ),
            ConfigStepView::Done(text) => blocks.len() == 0 && text == payload_of(blocks),
            ConfigStepView::Failed(_) => false,
        },
{
    reveal(Seq::filter);
    if blocks.len() >= 1 {
        let reader = ConfigReaderView { remaining: blocks.len(), data: Seq::empty() };
        reader_assembles_payload(reader, blocks);
        assert(reader.data + joined(blocks) =~= joined(blocks));
    } else {
        assert(retained(Seq::<u8>::empty()) =~= Seq::<u8>::empty());
    }
}

/// Filtering forgets the trailing zero that stripping removes.
proof fn retained_ignores_stripping(block: Seq<u8>)
    ensures
        retained(stripped(block)) == retained(block),
{
    reveal(Seq::filter);
}

/// Filtering forgets the zeros that padding adds.
proof fn retained_ignores_padding(data: Seq<u8>, n: nat)
    ensures
        retained(data + zeros(n)) == retained(data),
    decreases n,
{
    reveal(Seq::filter);
    if n == 0 {
        assert(data + zeros(0) =~= data);
    } else {
        let longer = data + zeros(n);
        assert(longer.drop_last() =~= data + zeros((n - 1) as nat));
        assert(longer.last() == 0u8);
        retained_ignores_padding(data, (n - 1) as nat);
    }
}

/// Text that holds text bytes only is left as it is.
proof fn retained_keeps_text(data: Seq<u8>)
    requires
        forall|i: int| 0 <= i < data.len() ==> is_config_byte(#[trigger] data[i]),
    ensures
        retained(data) == data,
    decreases data.len(),
{
    reveal(Seq::filter);
    if data.len() > 0 {
        retained_keeps_text(data.drop_last());
        assert(data.drop_last().push(data.last()) =~= data);
    }
}

/// The text of a run of packets is the text of the data they were cut from.
proof fn packets_carry_text(data: Seq<u8>)
    ensures
        payload_of(packets_of(data)) == retained(data),
    decreases data.len(),
{
    let packets = packets_of(data);
    if data.len() == 0 {
        assert(packets =~= Seq::<Seq<u8>>::empty());
        assert(joined(packets) =~= data);
    } else {
        let head = piece(data, 0);
        let rest = data.subrange(head.len() as int, data.len() as int);
        assert(packets.len() >= 1);
        assert(packets.first() == padded(head));
        assert(packets.drop_first() =~= packets_of(rest)) by {
            assert(packets.drop_first().len() == packets_of(rest).len());
            assert forall|i: int| 0 <= i < packets_of(rest).len() implies packets.drop_first()[i]
                == packets_of(rest)[i] by {
                assert(piece(data, i + 1) =~= piece(rest, i));
            }
        }
        packets_carry_text(rest);
        let first = stripped(padded(head));
        let tail = joined(packets_of(rest));
        assert(joined(packets) == first + tail);
        Seq::filter_distributes_over_add(first, tail, |b: u8| is_config_byte(b));
        retained_ignores_stripping(padded(head));
        retained_ignores_padding(head, (PACKET_SIZE - head.len()) as nat);
        Seq::filter_distributes_over_add(head, rest, |b: u8| is_config_byte(b));
        assert(head + rest =~= data);
    }
}

/// What is written can be read back: configuration text that goes out in
/// blocks and comes back in the same blocks is the same text. The text must
/// be free of zeros and of reserved bytes, as JSON text is.
pub proof fn written_text_reads_back(text: Seq<u8>)
    requires
        forall|i: int| 0 <= i < text.len() ==> is_config_byte(#[trigger] text[i]),
    ensures
        write_packets_of(text).drop_first() == packets_of(text),
        payload_of(packets_of(text)) == text,
{
    packets_carry_text(text);
    retained_keeps_text(text);
    assert(write_packets_of(text).drop_first() =~= packets_of(text));
}

/// What the host does next while it reads a configuration.
pub enum ConfigStep {
    /// Read another packet and hand it to the reader.
    Read(ConfigReader),
    /// All blocks are in: this is the configuration text.
    Done(Vec<u8>),
    /// The device's header was malformed.
    Failed(Error),
}

impl View for ConfigStep {
    type V = ConfigStepView;

    open spec fn view(&self) -> ConfigStepView {
        match *self {
            ConfigStep::Read(reader) => ConfigStepView::Read(reader@),
            ConfigStep::Done(text) => ConfigStepView::Done(text@),
            ConfigStep::Failed(e) => ConfigStepView::Failed(e@),
        }
    }
}

/// The host side of a configuration read that is under way.
pub struct ConfigReader {
    remaining: u8,
    data: Vec<u8>,
}

impl View for ConfigReader {
    type V = ConfigReaderView;

    closed spec fn view(&self) -> ConfigReaderView {
        ConfigReaderView { remaining: self.remaining as nat, data: self.data@ }
    }
}

impl ConfigReader {
    /// Takes the device's response to `ReadConfig`, which announces the
    /// number of blocks that follow.
    pub fn begin(header: &[u8]) -> (step: ConfigStep)
        ensures
            step@ == ConfigReaderView::begun(header@),
    {
        if header.len() != 2 || header[0] != OP_READ_CONFIG {
            return ConfigStep::Failed(Error::InvalidResponse);
        }
        if header[1] == 0 {
            return ConfigStep::Done(Vec::new());
        }
        ConfigStep::Read(ConfigReader { remaining: header[1], data: Vec::new() })
    }

    /// How many blocks are still to come.
    pub fn remaining(&self) -> (n: u8)
        ensures
            n == self@.remaining,
    {
        self.remaining
    }

    /// Takes the next block. With the last block the text is complete.
    pub fn accept(self, block: &[u8]) -> (step: ConfigStep)
        ensures
            step@ == self@.next(block@),
    {
        let mut data = self.data;
        let len = block.len();
        let keep: usize = if len > 0 && block[len - 1] == 0 {
            len - 1
        } else {
            len
        };
        let mut i: usize = 0;
        while i < keep
            invariant
                i <= keep <= block@.len(),
                data@ == self.data@ + block@.take(i as int),
            decreases keep - i,
        {
            data.push(block[i]);
            i = i + 1;
        }
        assert(block@.take(keep as int) == stripped(block@));
        if self.remaining <= 1 {
            ConfigStep::Done(retain_text(&data))
        } else {
            ConfigStep::Read(ConfigReader { remaining: self.remaining - 1, data })
        }
    }
}

/// Copies the bytes of `data` that belong to configuration text.
pub fn retain_text(data: &Vec<u8>) -> (text: Vec<u8>)
    ensures
        text@ == retained(data@),
{
    let mut text: Vec<u8> = Vec::new();
    let mut i: usize = 0;
    proof {
        reveal(Seq::filter);
        assert(data@.take(0) =~= Seq::<u8>::empty());
    }
    while i < data.len()
        invariant
            i <= data@.len(),
            text@ == retained(data@.take(i as int)),
        decreases data@.len() - i,
    {
        let b: u8 = data[i];
        proof {
            reveal(Seq::filter);
            let next = data@.take(i + 1);
            assert(next.drop_last() == data@.take(i as int));
            assert(next.last() == b);
        }
        if b != 0 && b <= MAX_CONFIG_BYTE {
            text.push(b);
        }
        i = i + 1;
    }
    assert(data@.take(i as int) == data@);
    text
}

/// The packets that upload the configuration text `payload`: the
/// `WriteConfig` command, then the text in blocks of 64 bytes. The block
/// count in the command is a single byte and holds the count modulo 256.
pub open spec fn write_packets_of(payload: Seq<u8>) -> Seq<Seq<u8>> {
    seq![
        padded(
            (Command::WriteConfig { num_blocks: (packet_count(payload.len()) % 256) as u8 }).wire(),
        ),
    ] + packets_of(payload)
}

/// Frames the configuration text `payload` for upload. The device answers
/// the last packet with a plain acknowledgement.
pub fn write_config_packets(payload: &[u8]) -> (packets: Vec<Vec<u8>>)
    ensures
        packets.deep_view() == write_packets_of(payload@),
{
    let blocks = split_packets(payload);
    assert(blocks@.len() == blocks.deep_view().len());
    let header = Command::WriteConfig { num_blocks: (blocks.len() % 256) as u8 };
    let mut packets: Vec<Vec<u8>> = Vec::new();
    packets.push(header.packet());
    let mut i: usize = 0;
    while i < blocks.len()
        invariant
            i <= blocks@.len(),
            packets@.len() == i + 1,
            packets@[0]@ == padded(header.wire()),
            forall|j: int| 0 <= j < i ==> (#[trigger] packets@[j + 1])@ == blocks@[j]@,
        decreases blocks@.len() - i,
    {
        packets.push(blocks[i].clone());
        i = i + 1;
    }
    assert(packets.deep_view() =~~= write_packets_of(payload@)) by {
        assert forall|j: int| 0 <= j < blocks@.len() implies blocks@[j]@ == packets_of(
            payload@,
        )[j] by {
            assert(blocks.deep_view()[j] == blocks@[j]@);
        }
    }
    packets
}

} // verus!
