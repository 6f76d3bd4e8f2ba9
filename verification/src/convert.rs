//! The sample converter: raw little-endian PCM bytes to fixed-width
//! multichannel samples.
//!
//! One frame of the payload holds one signed integer per channel, little
//! endian, at the bit depth the header names. A converted sample keeps the
//! raw integer value of each channel; a value `v` at depth `bits` stands for
//! the normalized fraction `v / normalization_scale(bits)`, so the minimum
//! representable value maps to exactly -1 and every value stays below 1.
//! Channels beyond the frame's data, and depths other than 16, 24 and 32
//! bits, yield 0.

use vstd::prelude::*;

use crate::scream::ScreamHeader;
use crate::scream::spec_sample_bits;

verus! {

/// Most channels one sample can carry; unused slots hold 0.
pub const MAX_CHANNELS: usize = 10;

/// One point in time across all channels: the raw signed value per channel.
pub type MultichannelSample = [i32; MAX_CHANNELS];

/// A sample whose channels all hold 0.
pub fn silent_sample() -> (r: MultichannelSample)
    ensures
        r@ =~= Seq::new(MAX_CHANNELS as nat, |ch: int| 0i32),
{
    [0i32; MAX_CHANNELS]
}

/// The unsigned integer held little endian in two bytes.
pub open spec fn spec_u16_le(b0: u8, b1: u8) -> int {
    b0 + 0x100 * b1
}

/// The signed 16-bit integer held little endian in two bytes.
pub open spec fn spec_i16_le(b0: u8, b1: u8) -> int {
    if spec_u16_le(b0, b1) < 0x8000 {
        spec_u16_le(b0, b1)
    } else {
        spec_u16_le(b0, b1) - 0x10000
    }
}

/// The unsigned integer held little endian in three bytes.
pub open spec fn spec_u24_le(b0: u8, b1: u8, b2: u8) -> int {
    b0 + 0x100 * b1 + 0x10000 * b2
}

/// The signed 24-bit integer held little endian in three bytes.
pub open spec fn spec_i24_le(b0: u8, b1: u8, b2: u8) -> int {
    if spec_u24_le(b0, b1, b2) < 0x800000 {
        spec_u24_le(b0, b1, b2)
    } else {
        spec_u24_le(b0, b1, b2) - 0x1000000
    }
}

/// The unsigned integer held little endian in four bytes.
pub open spec fn spec_u32_le(b0: u8, b1: u8, b2: u8, b3: u8) -> int {
    b0 + 0x100 * b1 + 0x10000 * b2 + 0x1000000 * b3
}

/// The signed 32-bit integer held little endian in four bytes.
pub open spec fn spec_i32_le(b0: u8, b1: u8, b2: u8, b3: u8) -> int {
    if spec_u32_le(b0, b1, b2, b3) < 0x80000000 {
        spec_u32_le(b0, b1, b2, b3)
    } else {
        spec_u32_le(b0, b1, b2, b3) - 0x100000000
    }
}

/// Reads a signed 16-bit little-endian integer from two bytes.
pub fn read_i16_le(b0: u8, b1: u8) -> (r: i32)
    ensures
        r as int == spec_i16_le(b0, b1),
{
    let u: u16 = (b0 as u16) | ((b1 as u16) << 8);
    proof {
        assert(((b0 as u16) | ((b1 as u16) << 8)) as int == b0 + 0x100 * b1) by (bit_vector);
        assert(u < 0x8000 ==> (u as i16) as int == u as int) by (bit_vector);
        assert(u >= 0x8000 ==> (u as i16) as int == u as int - 0x10000) by (bit_vector);
        assert(((u as i16) as i32) as int == (u as i16) as int) by (bit_vector);
    }
    (u as i16) as i32
}

/// Reads a signed 24-bit little-endian integer from three bytes.
pub fn read_i24_le(b0: u8, b1: u8, b2: u8) -> (r: i32)
    ensures
        r as int == spec_i24_le(b0, b1, b2),
{
    let u: u32 = (b0 as u32) | ((b1 as u32) << 8) | ((b2 as u32) << 16);
    proof {
        assert(((b0 as u32) | ((b1 as u32) << 8) | ((b2 as u32) << 16)) as int == b0 + 0x100 * b1
            + 0x10000 * b2) by (bit_vector);
        assert(((b0 as u32) | ((b1 as u32) << 8) | ((b2 as u32) << 16)) < 0x1000000u32)
            by (bit_vector);
        assert(u < 0x1000000 ==> (u as i32) as int == u as int) by (bit_vector);
    }
    if u >= 0x800000 {
        (u as i32) - 0x1000000
    } else {
        u as i32
    }
}

/// Reads a signed 32-bit little-endian integer from four bytes.
pub fn read_i32_le(b0: u8, b1: u8, b2: u8, b3: u8) -> (r: i32)
    ensures
        r as int == spec_i32_le(b0, b1, b2, b3),
{
    let u: u32 = (b0 as u32) | ((b1 as u32) << 8) | ((b2 as u32) << 16) | ((b3 as u32) << 24);
    proof {
        assert(((b0 as u32) | ((b1 as u32) << 8) | ((b2 as u32) << 16) | ((b3 as u32) << 24))
            as int == b0 + 0x100 * b1 + 0x10000 * b2 + 0x1000000 * b3) by (bit_vector);
        assert(u < 0x80000000 ==> (u as i32) as int == u as int) by (bit_vector);
        assert(u >= 0x80000000 ==> (u as i32) as int == u as int - 0x100000000) by (bit_vector);
    }
    u as i32
}

/// The raw value of channel `ch` in one frame of payload bytes at the given
/// bit depth: the little-endian signed integer in the channel's chunk, or 0
/// where the depth is unsupported or the frame holds no such chunk.
pub open spec fn spec_channel_value(bits: u8, frame: Seq<u8>, ch: int) -> int {
    if ch < 0 {
        0
    } else if bits == 16 && 2 * ch + 2 <= frame.len() {
        spec_i16_le(frame[2 * ch], frame[2 * ch + 1])
    } else if bits == 24 && 3 * ch + 3 <= frame.len() {
        spec_i24_le(frame[3 * ch], frame[3 * ch + 1], frame[3 * ch + 2])
    } else if bits == 32 && 4 * ch + 4 <= frame.len() {
        spec_i32_le(frame[4 * ch], frame[4 * ch + 1], frame[4 * ch + 2], frame[4 * ch + 3])
    } else {
        0
    }
}

/// Whether a converted sample holds exactly the channel values of the given
/// frame bytes at the given bit depth.
pub open spec fn sample_matches_frame(s: MultichannelSample, bits: u8, frame: Seq<u8>) -> bool {
    forall|ch: int|
        0 <= ch < MAX_CHANNELS as int ==> (#[trigger] s@[ch]) as int == spec_channel_value(
            bits,
            frame,
            ch,
        )
}

/// Converts one frame of raw little-endian PCM bytes into a multichannel
/// sample of raw per-channel values.
pub fn convert_to_sample<H: ScreamHeader>(header: &H, sample: &[u8]) -> (r: MultichannelSample)
    ensures
        sample_matches_frame(r, spec_sample_bits(header.header_seq()), sample@),
{
    let bits = header.sample_bits();
    let mut buf: MultichannelSample = [0i32; MAX_CHANNELS];
    let mut ch: usize = 0;
    while ch < MAX_CHANNELS
        invariant
            ch <= MAX_CHANNELS,
            bits == spec_sample_bits(header.header_seq()),
            forall|j: int|
                0 <= j < ch ==> #[trigger] buf@[j] as int == spec_channel_value(bits, sample@, j),
        decreases MAX_CHANNELS - ch,
    {
        let v: i32 = if bits == 16 {
            if 2 * ch + 2 <= sample.len() {
                read_i16_le(sample[2 * ch], sample[2 * ch + 1])
            } else {
                0
            }
        } else if bits == 24 {
            if 3 * ch + 3 <= sample.len() {
                read_i24_le(sample[3 * ch], sample[3 * ch + 1], sample[3 * ch + 2])
            } else {
                0
            }
        } else if bits == 32 {
            if 4 * ch + 4 <= sample.len() {
                read_i32_le(
                    sample[4 * ch],
                    sample[4 * ch + 1],
                    sample[4 * ch + 2],
                    sample[4 * ch + 3],
                )
            } else {
                0
            }
        } else {
            0
        };
        buf[ch] = v;
        ch = ch + 1;
    }
    buf
}

/// The divisor that normalizes a raw sample value: a raw value `v` at depth
/// `bits` stands for the fraction `v / spec_normalization_scale(bits)`.
pub open spec fn spec_normalization_scale(bits: u8) -> int {
    if bits == 16 {
        0x8000
    } else if bits == 24 {
        0x800000
    } else if bits == 32 {
        0x80000000
    } else {
        1
    }
}

/// The divisor that normalizes a raw sample value of the given bit depth.
pub fn normalization_scale(bits: u8) -> (r: u32)
    ensures
        r as int == spec_normalization_scale(bits),
{
    if bits == 16 {
        0x8000
    } else if bits == 24 {
        0x800000
    } else if bits == 32 {
        0x80000000
    } else {
        1
    }
}

/// Every decoded channel value lies in the half-open normalized range: at
/// least the negative of the scale and strictly below the scale, so the
/// normalized fraction lies in [-1, 1), reaching -1 exactly at the minimum.
pub proof fn lemma_channel_value_in_range(bits: u8, frame: Seq<u8>, ch: int)
    ensures
        -spec_normalization_scale(bits) <= spec_channel_value(bits, frame, ch)
            < spec_normalization_scale(bits),
{
}

} // verus!
