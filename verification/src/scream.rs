//! The wire protocol: packet layout and the five-byte frame header codec.
//!
//! Byte 0 encodes the sample rate: bit 7 selects the base rate (0 means
//! 48000 Hz, 1 means 44100 Hz) and bits 0 through 6 hold an integer
//! multiplier, so the rate is the base times the multiplier. A multiplier of
//! zero yields a rate of zero, which callers must treat as an invalid,
//! no-op header. Byte 1 is the number of bits per sample. Bytes 2 through 4
//! carry channel mapping information that this codec does not decode: the
//! channel count is fixed at a default of two.

use vstd::prelude::*;

verus! {

/// Largest size in bytes of one protocol packet.
pub const SCREAM_PACKET_MAX_SIZE: usize = 1157;

/// Number of bytes in the frame header at the start of every packet.
pub const SCREAM_HEADER_SIZE: usize = 5;

/// Channel count handed to callers while the channel bytes stay undecoded.
pub const DEFAULT_CHANNELS: u16 = 2;

/// A receive buffer large enough for any packet.
pub type ScreamPacket = [u8; SCREAM_PACKET_MAX_SIZE];

/// The raw bytes of one frame header.
pub type ScreamHeaderArray = [u8; SCREAM_HEADER_SIZE];

/// The sample rate in Hz encoded by header byte 0: a base rate chosen by
/// bit 7 times the multiplier in bits 0 through 6.
pub open spec fn spec_sample_rate(bytes: Seq<u8>) -> int {
    (if bytes[0] & 0x80 == 0 {
        48000int
    } else {
        44100int
    }) * ((bytes[0] & 0x7f) as int)
}

/// The bits per sample held in header byte 1.
pub open spec fn spec_sample_bits(bytes: Seq<u8>) -> u8 {
    bytes[1]
}

/// Accessors of a decoded frame header.
pub trait ScreamHeader {
    /// The header bytes this value stands for.
    spec fn header_seq(&self) -> Seq<u8>;

    fn sample_rate(&self) -> (r: u32)
        ensures
            r as int == spec_sample_rate(self.header_seq()),
    ;

    fn sample_bits(&self) -> (r: u8)
        ensures
            r == spec_sample_bits(self.header_seq()),
    ;

    fn channels(&self) -> (r: u16)
        ensures
            r == DEFAULT_CHANNELS,
    ;

    fn sample_bytes(&self) -> (r: usize)
        ensures
            r == spec_sample_bits(self.header_seq()) as usize / 8,
    {
        self.sample_bits() as usize / 8
    }
}

impl ScreamHeader for ScreamHeaderArray {
    open spec fn header_seq(&self) -> Seq<u8> {
        self@
    }

    fn sample_rate(&self) -> (r: u32)
        ensures
            r as int == spec_sample_rate(self@),
    {
        let rate_byte = self[0];
        let multiplier = (rate_byte & 0x7f) as u32;
        proof {
            assert(rate_byte & 0x7f <= 0x7f) by (bit_vector);
        }
        if rate_byte & 0x80 == 0 {
            48000 * multiplier
        } else {
            44100 * multiplier
        }
    }

    fn sample_bits(&self) -> (r: u8)
        ensures
            r == spec_sample_bits(self@),
    {
        self[1]
    }

    fn channels(&self) -> (r: u16)
        ensures
            r == DEFAULT_CHANNELS,
    {
        DEFAULT_CHANNELS
    }
}

/// Whether header byte 0 encodes a usable rate: a multiplier of zero yields
/// a rate of 0 Hz, which no device stream may be opened with.
pub open spec fn spec_rate_valid(bytes: Seq<u8>) -> bool {
    bytes[0] & 0x7f != 0
}

/// A header's rate is valid exactly when the encoded rate is not zero.
pub proof fn lemma_rate_valid_iff_nonzero(bytes: Seq<u8>)
    ensures
        spec_rate_valid(bytes) <==> spec_sample_rate(bytes) != 0,
{
    let b0 = bytes[0];
    assert(b0 & 0x7f <= 0x7f) by (bit_vector);
}

/// A decoded frame header, compared by value to detect format changes.
#[derive(Clone, Copy, Debug, PartialEq, Eq, Structural)]
pub struct FrameHeader {
    /// The sample rate in Hz; zero marks an invalid, no-op header.
    pub sample_rate: u32,
    /// Bits per sample of the payload's signed integers.
    pub sample_bit_depth: u8,
    /// Number of interleaved channels per frame.
    pub channel_count: u16,
}

/// Why a packet's header failed to decode.
#[derive(Clone, Copy, Debug, PartialEq, Eq, Structural)]
pub enum HeaderError {
    /// The packet holds fewer bytes than one header.
    Truncated,
}

/// Parses the header at the start of a packet. Anything shorter than the
/// five header bytes is rejected cleanly; otherwise the decoded rate, depth
/// and (fixed) channel count are returned, a zero rate included, which the
/// caller must treat as a no-op header.
pub fn decode_header(data: &[u8]) -> (r: Result<FrameHeader, HeaderError>)
    ensures
        data@.len() < SCREAM_HEADER_SIZE ==> r == Err::<FrameHeader, HeaderError>(
            HeaderError::Truncated,
        ),
        data@.len() >= SCREAM_HEADER_SIZE ==> (r matches Ok(h) && h.sample_rate as int
            == spec_sample_rate(data@) && h.sample_bit_depth == spec_sample_bits(data@)
            && h.channel_count == DEFAULT_CHANNELS),
{
    if data.len() < SCREAM_HEADER_SIZE {
        return Err(HeaderError::Truncated);
    }
    let header: ScreamHeaderArray = [data[0], data[1], data[2], data[3], data[4]];
    Ok(
        FrameHeader {
            sample_rate: header.sample_rate(),
            sample_bit_depth: header.sample_bits(),
            channel_count: header.channels(),
        },
    )
}

/// The header bytes that stand for the given rate selector, multiplier and
/// bit depth; the undecoded channel bytes are left zero.
pub open spec fn spec_encode_header(base_44100: bool, multiplier: u8, bits: u8) -> Seq<u8> {
    seq![
        if base_44100 {
            multiplier | 0x80
        } else {
            multiplier
        },
        bits,
        0u8,
        0u8,
        0u8,
    ]
}

/// Builds the header bytes for a rate chosen as base times multiplier and a
/// bit depth: bit 7 of byte 0 selects the 44100 Hz base, bits 0 through 6
/// hold the multiplier, byte 1 the depth.
pub fn encode_header(base_44100: bool, multiplier: u8, bits: u8) -> (r: ScreamHeaderArray)
    requires
        multiplier < 0x80,
    ensures
        r@ =~= spec_encode_header(base_44100, multiplier, bits),
{
    let rate_byte = if base_44100 {
        multiplier | 0x80
    } else {
        multiplier
    };
    [rate_byte, bits, 0, 0, 0]
}

/// Header codec round trip: encoding any valid rate selector, multiplier and
/// bit depth and decoding the bytes again recovers the same rate (the chosen
/// base times the multiplier) and the same depth.
pub proof fn lemma_header_round_trip(base_44100: bool, multiplier: u8, bits: u8)
    requires
        multiplier < 0x80,
    ensures
        spec_sample_rate(spec_encode_header(base_44100, multiplier, bits)) == (if base_44100 {
            44100int
        } else {
            48000int
        }) * multiplier,
        spec_sample_bits(spec_encode_header(base_44100, multiplier, bits)) == bits,
{
    assert(multiplier < 0x80 ==> (multiplier | 0x80) & 0x80 != 0) by (bit_vector);
    assert(multiplier < 0x80 ==> (multiplier | 0x80) & 0x7f == multiplier) by (bit_vector);
    assert(multiplier < 0x80 ==> multiplier & 0x80 == 0) by (bit_vector);
    assert(multiplier < 0x80 ==> multiplier & 0x7f == multiplier) by (bit_vector);
}

} // verus!
