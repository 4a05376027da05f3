//! The checksum and the System Exclusive message that carries a voice or a cartridge.

use vstd::prelude::*;
use vstd::arithmetic::div_mod::lemma_add_mod_noop;
use crate::cartridge::{Cartridge, CARTRIDGE_SIZE};
use crate::error::CodecError;
use crate::layout::SystemExclusiveData;
use crate::name::all_ascii;
use crate::voice::{Voice, VOICE_SIZE};

verus! {

/// The first byte of a System Exclusive message.
pub const SYSEX_START: u8 = 0xf0;

/// The last byte of a System Exclusive message.
pub const SYSEX_END: u8 = 0xf7;

/// The manufacturer id of Yamaha.
pub const YAMAHA_ID: u8 = 0x43;

/// The size of the header before the data: start, manufacturer, channel,
/// format and the two bytes of the byte count.
pub const HEADER_SIZE: usize = 6;

/// The sum of the bytes.
pub open spec fn byte_sum(s: Seq<u8>) -> nat
    decreases s.len(),
{
    if s.len() == 0 {
        0
    } else {
        byte_sum(s.drop_last()) + s.last() as nat
    }
}

/// The checksum of data bytes: the low seven bits of the complement of their
/// sum, plus one.
pub open spec fn spec_checksum(s: Seq<u8>) -> u8 {
    (((!((byte_sum(s) % 256) as u8)) & 0x7f) + 1) as u8
}

/// Computes the checksum of data bytes, without header or checksum byte.
pub fn voice_checksum(data: &Vec<u8>) -> (r: u8)
    ensures
        r == spec_checksum(data@),
{
    let mut sum: u32 = 0;
    let mut i: usize = 0;
    while i < data.len()
        invariant
            i <= data@.len(),
            sum == byte_sum(data@.take(i as int)) % 256,
        decreases data@.len() - i,
    {
        proof {
            let t = data@.take(i + 1);
            assert(t.drop_last() =~= data@.take(i as int));
            lemma_add_mod_noop(byte_sum(data@.take(i as int)) as int, data@[i as int] as int, 256);
        }
        sum = (sum + data[i] as u32) % 256;
        i += 1;
    }
    assert(data@.take(i as int) =~= data@);
    let low: u8 = sum as u8;
    let checksum: u8 = (!low) & 0x7f;
    assert(checksum <= 0x7f) by (bit_vector)
        requires
            checksum == (!low) & 0x7f,
    ;
    checksum + 1
}

/// What a message carries.
#[derive(Debug, Clone, Copy, PartialEq, Eq, Structural)]
pub enum Format {
    /// One voice in the unpacked layout.
    Voice,
    /// 32 voices in the packed layout.
    Cartridge,
}

/// The format byte of a message.
pub open spec fn format_code(f: Format) -> u8 {
    match f {
        Format::Voice => 0,
        Format::Cartridge => 9,
    }
}

/// The format of a format byte, if it is one.
pub open spec fn format_of_code(b: u8) -> Option<Format> {
    if b == 0 {
        Some(Format::Voice)
    } else if b == 9 {
        Some(Format::Cartridge)
    } else {
        None
    }
}

/// The size of the data of a format.
pub open spec fn format_size(f: Format) -> nat {
    match f {
        Format::Voice => VOICE_SIZE as nat,
        Format::Cartridge => CARTRIDGE_SIZE as nat,
    }
}

/// The header of a message; the byte count is sent as two seven-bit bytes,
/// the high one first.
pub open spec fn spec_header(channel: u8, f: Format) -> Seq<u8> {
    seq![
        SYSEX_START,
        YAMAHA_ID,
        channel,
        format_code(f),
        (format_size(f) / 128) as u8,
        (format_size(f) % 128) as u8,
    ]
}

/// The message that carries data of a format on a channel.
pub open spec fn spec_message(channel: u8, f: Format, data: Seq<u8>) -> Seq<u8> {
    spec_header(channel, f) + data + seq![spec_checksum(data), SYSEX_END]
}

/// The bytes frame a message of this library: header, data of the size that
/// the format gives, checksum byte and end byte.
pub open spec fn well_framed(s: Seq<u8>) -> bool {
    &&& s.len() >= HEADER_SIZE
    &&& s[0] == SYSEX_START
    &&& s[1] == YAMAHA_ID
    &&& s[2] < 16
    &&& format_of_code(s[3]) is Some
    &&& s[4] < 128
    &&& s[5] < 128
    &&& s[4] * 128 + s[5] == format_size(format_of_code(s[3])->Some_0)
    &&& s.len() == HEADER_SIZE + format_size(format_of_code(s[3])->Some_0) + 2
    &&& s.last() == SYSEX_END
}

impl Format {
    /// Gets the format byte.
    pub fn to_byte(&self) -> (r: u8)
        ensures
            r == format_code(*self),
    {
        match self {
            Format::Voice => 0,
            Format::Cartridge => 9,
        }
    }

    /// Gets the size of the data of the format.
    pub fn data_size(&self) -> (r: usize)
        ensures
            r == format_size(*self),
    {
        match self {
            Format::Voice => VOICE_SIZE,
            Format::Cartridge => CARTRIDGE_SIZE,
        }
    }
}

/// A message that carries a voice or a cartridge.
#[derive(Debug, Clone)]
pub struct Message {
    /// The MIDI channel, 0...15.
    pub channel: u8,
    pub format: Format,
    pub data: Vec<u8>,
    /// The checksum byte as it was received.
    pub checksum: u8,
}

impl Message {
    /// Tells whether the received checksum is that of the data.
    pub fn checksum_ok(&self) -> (r: bool)
        ensures
            r == (self.checksum == spec_checksum(self.data@)),
    {
        self.checksum == voice_checksum(&self.data)
    }
}

/// Frames data of a format as a message on a channel.
pub fn make_message(channel: u8, format: Format, data: &[u8]) -> (r: Vec<u8>)
    requires
        channel < 16,
        data@.len() == format_size(format),
    ensures
        r@ == spec_message(channel, format, data@),
{
    let size = format.data_size();
    let mut bytes: Vec<u8> = Vec::new();
    bytes.push(SYSEX_START);
    bytes.push(YAMAHA_ID);
    bytes.push(channel);
    bytes.push(format.to_byte());
    bytes.push((size / 128) as u8);
    bytes.push((size % 128) as u8);
    let mut payload: Vec<u8> = Vec::new();
    payload.extend_from_slice(data);
    assert(payload@ =~= data@);
    let ghost head = bytes@;
    assert(head =~= spec_header(channel, format));
    bytes.extend_from_slice(data);
    assert(bytes@ =~= head + data@);
    bytes.push(voice_checksum(&payload));
    bytes.push(SYSEX_END);
    assert(bytes@ =~= spec_message(channel, format, data@));
    bytes
}

/// Reads the message that the bytes frame.
pub fn parse_message(bytes: &[u8]) -> (r: Result<Message, CodecError>)
    ensures
        r is Ok <==> well_framed(bytes@),
        r is Err ==> r == Err::<Message, CodecError>(CodecError::Framing),
        r is Ok ==> ({
            let m = r->Ok_0;
            let size = format_size(m.format);
            &&& m.channel == bytes@[2]
            &&& Some(m.format) == format_of_code(bytes@[3])
            &&& m.data@ == bytes@.subrange(HEADER_SIZE as int, HEADER_SIZE + size)
            &&& m.checksum == bytes@[HEADER_SIZE + size]
        }),
{
    if bytes.len() < HEADER_SIZE || bytes[0] != SYSEX_START || bytes[1] != YAMAHA_ID || bytes[2]
        >= 16 || bytes[4] >= 128 || bytes[5] >= 128 {
        return Err(CodecError::Framing);
    }
    let format = if bytes[3] == 0 {
        Format::Voice
    } else if bytes[3] == 9 {
        Format::Cartridge
    } else {
        return Err(CodecError::Framing);
    };
    let size = format.data_size();
    let count: usize = bytes[4] as usize * 128 + bytes[5] as usize;
    if count != size || bytes.len() != HEADER_SIZE + size + 2 || bytes[bytes.len() - 1]
        != SYSEX_END {
        return Err(CodecError::Framing);
    }
    let mut data: Vec<u8> = Vec::new();
    data.extend_from_slice(&bytes[HEADER_SIZE..HEADER_SIZE + size]);
    Ok(Message { channel: bytes[2], format, data, checksum: bytes[HEADER_SIZE + size] })
}

/// A framed message is read back as the channel, format and data it was
/// made of, with a matching checksum.
pub proof fn lemma_message_round_trip(channel: u8, format: Format, data: Seq<u8>)
    requires
        channel < 16,
        data.len() == format_size(format),
    ensures
        well_framed(spec_message(channel, format, data)),
        spec_message(channel, format, data)[2] == channel,
        format_of_code(spec_message(channel, format, data)[3]) == Some(format),
        spec_message(channel, format, data).subrange(
            HEADER_SIZE as int,
            HEADER_SIZE + format_size(format),
        ) == data,
        spec_message(channel, format, data)[HEADER_SIZE + format_size(format)] == spec_checksum(
            data,
        ),
{
    let s = spec_message(channel, format, data);
    assert(s.subrange(HEADER_SIZE as int, HEADER_SIZE + format_size(format)) =~= data);
}

/// Frames the unpacked data of a voice as a message on a channel.
pub fn voice_message(voice: &Voice, channel: u8) -> (r: Vec<u8>)
    requires
        voice.wf(),
        channel < 16,
    ensures
        r@ == spec_message(channel, Format::Voice, voice.spec_bytes()),
{
    let data = voice.to_bytes();
    make_message(channel, Format::Voice, data.as_slice())
}

/// Frames the packed data of a cartridge as a message on a channel.
pub fn cartridge_message(cartridge: &Cartridge, channel: u8) -> (r: Vec<u8>)
    requires
        cartridge.wf(),
        channel < 16,
    ensures
        r@ == spec_message(channel, Format::Cartridge, cartridge.spec_packed_bytes()),
{
    let data = cartridge.to_packed_bytes();
    make_message(channel, Format::Cartridge, data.as_slice())
}

/// Frames each voice of a cartridge, unpacked, as a message of its own on a channel.
pub fn voice_messages(cartridge: &Cartridge, channel: u8) -> (r: Vec<Vec<u8>>)
    requires
        cartridge.wf(),
        channel < 16,
    ensures
        r@.len() == cartridge.voices@.len(),
        forall|i: int|
            0 <= i < r@.len() ==> (#[trigger] r@[i])@ == spec_message(
                channel,
                Format::Voice,
                cartridge.voices@[i].spec_bytes(),
            ),
{
    let mut messages: Vec<Vec<u8>> = Vec::new();
    let mut i: usize = 0;
    while i < cartridge.voices.len()
        invariant
            cartridge.wf(),
            channel < 16,
            i <= cartridge.voices@.len(),
            messages@.len() == i,
            forall|j: int|
                0 <= j < i ==> (#[trigger] messages@[j])@ == spec_message(
                    channel,
                    Format::Voice,
                    cartridge.voices@[j].spec_bytes(),
                ),
        decreases cartridge.voices@.len() - i,
    {
        messages.push(voice_message(&cartridge.voices[i], channel));
        i += 1;
    }
    messages
}

/// What a message holds: one voice or a cartridge.
pub enum Patch {
    Voice(Voice),
    Cartridge(Cartridge),
}

/// The data of the message that well-framed bytes hold.
pub open spec fn message_data(s: Seq<u8>) -> Seq<u8> {
    s.subrange(HEADER_SIZE as int, s.len() - 2)
}

/// The format of the message that well-framed bytes hold.
pub open spec fn message_format(s: Seq<u8>) -> Format {
    format_of_code(s[3])->Some_0
}

/// Reads the voice or the cartridge that a message carries. The checksum is
/// not held against the data: `parse_message` and `Message::checksum_ok`
/// leave that to the caller.
pub fn decode_message(bytes: &[u8]) -> (r: Result<Patch, CodecError>)
    ensures
        !well_framed(bytes@) ==> r == Err::<Patch, CodecError>(CodecError::Framing),
        well_framed(bytes@) && message_format(bytes@) == Format::Voice ==> match r {
            Ok(Patch::Voice(v)) => v.decodes_from(message_data(bytes@)) && v.wf(),
            Ok(Patch::Cartridge(_)) => false,
            Err(e) => e == CodecError::Name && !all_ascii(
                Voice::name_part(message_data(bytes@), 155),
            ),
        },
        well_framed(bytes@) && message_format(bytes@) == Format::Cartridge ==> match r {
            Ok(Patch::Cartridge(c)) => c.decodes_from_packed(message_data(bytes@)) && c.wf(),
            Ok(Patch::Voice(_)) => false,
            Err(e) => e == CodecError::Name && !Cartridge::names_ascii(message_data(bytes@)),
        },
{
    let message = match parse_message(bytes) {
        Ok(m) => m,
        Err(e) => {
            return Err(e);
        },
    };
    assert(message.data@ =~= message_data(bytes@));
    match message.format {
        Format::Voice => match Voice::from_bytes(message.data.as_slice()) {
            Ok(v) => Ok(Patch::Voice(v)),
            Err(e) => Err(e),
        },
        Format::Cartridge => match Cartridge::from_packed_bytes(message.data.as_slice()) {
            Ok(c) => Ok(Patch::Cartridge(c)),
            Err(e) => Err(e),
        },
    }
}

} // verus!
