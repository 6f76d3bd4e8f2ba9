use scream_receiver::convert::convert_to_sample;
use scream_receiver::convert::normalization_scale;
use scream_receiver::convert::read_i16_le;
use scream_receiver::convert::read_i24_le;
use scream_receiver::convert::read_i32_le;
use scream_receiver::scream::FrameHeader;
use scream_receiver::scream::HeaderError;
use scream_receiver::scream::ScreamHeader;
use scream_receiver::scream::decode_header;
use scream_receiver::scream::encode_header;

fn header_of(rate_byte: u8, bits: u8) -> [u8; 5] {
    [rate_byte, bits, 0, 0, 0]
}

#[test]
fn decode_sample_rates() {
    assert_eq!(decode_header(&header_of(0x00, 16)).unwrap().sample_rate, 0);
    assert_eq!(decode_header(&header_of(0x01, 16)).unwrap().sample_rate, 48000);
    assert_eq!(decode_header(&header_of(0x02, 16)).unwrap().sample_rate, 96000);
    assert_eq!(decode_header(&header_of(0x81, 16)).unwrap().sample_rate, 44100);
    assert_eq!(decode_header(&header_of(0x82, 16)).unwrap().sample_rate, 88200);
}

#[test]
fn decode_bit_depth_and_channels() {
    let h: FrameHeader = decode_header(&header_of(0x01, 24)).unwrap();
    assert_eq!(h.sample_bit_depth, 24);
    assert_eq!(h.channel_count, 2);
}

#[test]
fn decode_truncated_header_fails() {
    assert_eq!(decode_header(&[]), Err(HeaderError::Truncated));
    assert_eq!(decode_header(&[0x01]), Err(HeaderError::Truncated));
    assert_eq!(decode_header(&[0x01, 16, 0, 0]), Err(HeaderError::Truncated));
}

#[test]
fn header_round_trip() {
    let cases: [(bool, u8, u8, u32); 4] = [
        (false, 1, 16, 48000),
        (false, 2, 32, 96000),
        (true, 1, 24, 44100),
        (true, 4, 16, 176400),
    ];
    for (base_44100, multiplier, bits, expected_rate) in cases {
        let bytes = encode_header(base_44100, multiplier, bits);
        let decoded = decode_header(&bytes).unwrap();
        assert_eq!(decoded.sample_rate, expected_rate);
        assert_eq!(decoded.sample_bit_depth, bits);
    }
}

#[test]
fn trait_accessors_match_decoded_header() {
    let bytes: [u8; 5] = header_of(0x82, 16);
    assert_eq!(bytes.sample_rate(), 88200);
    assert_eq!(bytes.sample_bits(), 16);
    assert_eq!(bytes.channels(), 2);
    assert_eq!(bytes.sample_bytes(), 2);
}

#[test]
fn little_endian_signed_reads() {
    assert_eq!(read_i16_le(0x00, 0x00), 0);
    assert_eq!(read_i16_le(0x34, 0x12), 0x1234);
    assert_eq!(read_i16_le(0x00, 0x80), -32768);
    assert_eq!(read_i16_le(0xff, 0x7f), 32767);
    assert_eq!(read_i24_le(0xff, 0xff, 0x7f), 8388607);
    assert_eq!(read_i24_le(0x00, 0x00, 0x80), -8388608);
    assert_eq!(read_i24_le(0x01, 0x00, 0x00), 1);
    assert_eq!(read_i32_le(0xff, 0xff, 0xff, 0x7f), 2147483647);
    assert_eq!(read_i32_le(0x00, 0x00, 0x00, 0x80), -2147483648);
    assert_eq!(read_i32_le(0xfe, 0xff, 0xff, 0xff), -2);
}

#[test]
fn normalization_round_trip_16_bit() {
    let scale: u32 = normalization_scale(16);
    assert_eq!(scale, 32768);

    let zero: f32 = read_i16_le(0x00, 0x00) as f32 / scale as f32;
    assert_eq!(zero, 0.0);

    let minimum: f32 = read_i16_le(0x00, 0x80) as f32 / scale as f32;
    assert_eq!(minimum, -1.0);

    let maximum: f32 = read_i16_le(0xff, 0x7f) as f32 / scale as f32;
    assert!(maximum < 1.0);
    assert!(maximum > 0.999);
}

#[test]
fn normalization_scales_per_depth() {
    assert_eq!(normalization_scale(16), 1 << 15);
    assert_eq!(normalization_scale(24), 1 << 23);
    assert_eq!(normalization_scale(32), 1 << 31);
    assert_eq!(normalization_scale(8), 1);
}

#[test]
fn convert_stereo_16_bit_frame() {
    let header: [u8; 5] = header_of(0x01, 16);
    let frame: [u8; 4] = [0x34, 0x12, 0x00, 0x80];
    let sample = convert_to_sample(&header, &frame);
    assert_eq!(sample[0], 0x1234);
    assert_eq!(sample[1], -32768);
    for channel in 2..10 {
        assert_eq!(sample[channel], 0);
    }
}

#[test]
fn convert_unsupported_depth_yields_zero() {
    let header: [u8; 5] = header_of(0x01, 12);
    let frame: [u8; 4] = [0xab, 0xcd, 0xef, 0x01];
    let sample = convert_to_sample(&header, &frame);
    assert_eq!(sample, [0i32; 10]);
}

#[test]
fn convert_24_bit_frame() {
    let header: [u8; 5] = header_of(0x01, 24);
    let frame: [u8; 6] = [0x00, 0x00, 0x80, 0xff, 0xff, 0x7f];
    let sample = convert_to_sample(&header, &frame);
    assert_eq!(sample[0], -8388608);
    assert_eq!(sample[1], 8388607);
}
