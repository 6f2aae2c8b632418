use granulizor::wav_parser::{
    decode_route, pair_frames, parse_wav, widen_16, DecodeRoute, Error, StereoFrame,
};

fn frame(left: i32, right: i32) -> StereoFrame {
    StereoFrame { left, right }
}

fn wav_spec(channels: u16, bits_per_sample: u16, float: bool) -> hound::WavSpec {
    hound::WavSpec {
        channels,
        sample_rate: 44100,
        bits_per_sample,
        sample_format: if float {
            hound::SampleFormat::Float
        } else {
            hound::SampleFormat::Int
        },
    }
}

fn write_wav_i16(channels: u16, samples: &[i16]) -> Vec<u8> {
    let mut cursor = std::io::Cursor::new(Vec::new());
    {
        let mut writer = hound::WavWriter::new(&mut cursor, wav_spec(channels, 16, false))
            .unwrap();
        for &s in samples {
            writer.write_sample(s).unwrap();
        }
        writer.finalize().unwrap();
    }
    cursor.into_inner()
}

fn write_wav_i32(channels: u16, samples: &[i32]) -> Vec<u8> {
    let mut cursor = std::io::Cursor::new(Vec::new());
    {
        let mut writer = hound::WavWriter::new(&mut cursor, wav_spec(channels, 32, false))
            .unwrap();
        for &s in samples {
            writer.write_sample(s).unwrap();
        }
        writer.finalize().unwrap();
    }
    cursor.into_inner()
}

fn write_wav_i8(channels: u16, samples: &[i8]) -> Vec<u8> {
    let mut cursor = std::io::Cursor::new(Vec::new());
    {
        let mut writer = hound::WavWriter::new(&mut cursor, wav_spec(channels, 8, false))
            .unwrap();
        for &s in samples {
            writer.write_sample(s as i32).unwrap();
        }
        writer.finalize().unwrap();
    }
    cursor.into_inner()
}

fn write_wav_f32(channels: u16, samples: &[f32]) -> Vec<u8> {
    let mut cursor = std::io::Cursor::new(Vec::new());
    {
        let mut writer = hound::WavWriter::new(&mut cursor, wav_spec(channels, 32, true))
            .unwrap();
        for &s in samples {
            writer.write_sample(s).unwrap();
        }
        writer.finalize().unwrap();
    }
    cursor.into_inner()
}

#[test]
fn parse_wav_decodes_16_bit_stereo() {
    let bytes = write_wav_i16(2, &[100, -100, 200, -200, 32767, -32768]);
    let frames = parse_wav(bytes).unwrap();
    assert_eq!(frames.len(), 3);
    assert_eq!(frames[0], frame(100 << 16, -100 << 16));
    assert_eq!(frames[1], frame(200 << 16, -200 << 16));
    assert_eq!(frames[2], frame(32767 << 16, i32::MIN));
}

#[test]
fn parse_wav_decodes_32_bit_stereo() {
    let bytes = write_wav_i32(2, &[1 << 20, -(1 << 20), 7, -9]);
    let frames = parse_wav(bytes).unwrap();
    assert_eq!(frames.len(), 2);
    assert_eq!(frames[0], frame(1 << 20, -(1 << 20)));
    assert_eq!(frames[1], frame(7, -9));
}

#[test]
fn parse_wav_discards_odd_trailing_sample() {
    // A mono file's samples are still paired by index; the odd third sample
    // has no partner and is dropped.
    let bytes = write_wav_i16(1, &[10, 20, 30]);
    let frames = parse_wav(bytes).unwrap();
    assert_eq!(frames.len(), 1);
    assert_eq!(frames[0], frame(10 << 16, 20 << 16));
}

#[test]
fn parse_wav_refuses_float_samples() {
    let bytes = write_wav_f32(2, &[0.5, -0.5]);
    assert_eq!(parse_wav(bytes), Err(Error::UnsupportedSampleFormat));
}

#[test]
fn parse_wav_refuses_other_bit_depths() {
    let bytes = write_wav_i8(2, &[1, -1]);
    assert_eq!(parse_wav(bytes), Err(Error::UnsupportedBitsPerSample(8)));
}

#[test]
fn parse_wav_refuses_malformed_bytes() {
    assert_eq!(parse_wav(vec![]), Err(Error::ParsingError));
    assert_eq!(parse_wav(vec![1, 2, 3, 4, 5]), Err(Error::ParsingError));
    assert_eq!(parse_wav(b"RIFFxxxxWAVEjunk".to_vec()), Err(Error::ParsingError));
}

#[test]
fn decode_route_matches_the_format_table() {
    assert_eq!(decode_route(16, false), DecodeRoute::Pcm16);
    assert_eq!(decode_route(32, false), DecodeRoute::Pcm32);
    assert_eq!(decode_route(32, true), DecodeRoute::FloatSamples);
    assert_eq!(decode_route(16, true), DecodeRoute::BadBitDepth);
    assert_eq!(decode_route(8, false), DecodeRoute::BadBitDepth);
    assert_eq!(decode_route(24, false), DecodeRoute::BadBitDepth);
    assert_eq!(decode_route(64, true), DecodeRoute::BadBitDepth);
}

#[test]
fn widen_16_scales_to_full_range() {
    let out = widen_16(&vec![0, 1, -1, 32767, -32768]);
    assert_eq!(out, vec![0, 65536, -65536, 2147418112, -2147483648]);
}

#[test]
fn pair_frames_pairs_by_index() {
    let out = pair_frames(&vec![1, 2, 3, 4, 5]);
    assert_eq!(out.len(), 2);
    assert_eq!(out[0], frame(1, 2));
    assert_eq!(out[1], frame(3, 4));
    assert!(pair_frames(&vec![7]).is_empty());
    assert!(pair_frames(&vec![]).is_empty());
}

#[test]
fn stereo_frame_accessors() {
    let mut f = frame(6, -8);
    assert_eq!(f.copy(), f);
    assert_eq!(f.get_left(), 6);
    assert_eq!(f.get_right(), -8);
    assert_eq!(f.get_mono(), -1);
    assert_eq!(frame(3, 4).get_mono(), 3);
    assert_eq!(frame(-3, 0).get_mono(), -1);
    f.set_value(0, 42);
    assert_eq!(f, frame(42, -8));
    f.set_value(1, 43);
    assert_eq!(f, frame(42, 43));
}
