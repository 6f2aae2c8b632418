use vstd::prelude::*;

verus! {

/// One stereo frame: the left and right channel amplitudes at a single time
/// index, as 32-bit fixed-point values (full scale is `i32::MIN..=i32::MAX`).
#[derive(Clone, Copy, Debug, PartialEq, Eq, Structural)]
pub struct StereoFrame {
    pub left: i32,
    pub right: i32,
}

/// A frame whose two channels are both zero: one sample of silence.
pub open spec fn silent_frame() -> StereoFrame {
    StereoFrame { left: 0, right: 0 }
}

/// The mean of two channel values, with the quotient truncated toward zero.
pub open spec fn mono_of(l: int, r: int) -> int {
    if l + r >= 0 {
        (l + r) / 2
    } else {
        -((-(l + r)) / 2)
    }
}

impl StereoFrame {
    pub fn copy(&self) -> (r: StereoFrame)
        ensures
            r == *self,
    {
        StereoFrame { left: self.left, right: self.right }
    }

    pub fn get_left(&self) -> (r: i32)
        ensures
            r == self.left,
    {
        self.left
    }

    pub fn get_right(&self) -> (r: i32)
        ensures
            r == self.right,
    {
        self.right
    }

    /// Both channels mixed down to one value: their mean, truncated toward zero.
    pub fn get_mono(&self) -> (r: i32)
        ensures
            r == mono_of(self.left as int, self.right as int),
    {
        let sum: i64 = self.left as i64 + self.right as i64;
        if sum >= 0 {
            ((sum as u64) / 2) as i32
        } else {
            let half: u64 = ((-sum) as u64) / 2;
            assert(half <= 0x8000_0000);
            (-(half as i64)) as i32
        }
    }

    /// Writes one channel: channel 0 is the left one, any other the right one.
    pub fn set_value(&mut self, channel: u8, value: i32)
        ensures
            channel == 0 ==> *final(self) == (StereoFrame { left: value, ..*old(self) }),
            channel != 0 ==> *final(self) == (StereoFrame { right: value, ..*old(self) }),
    {
        if channel == 0 {
            self.left = value;
        } else {
            self.right = value;
        }
    }
}

/// What can go wrong while turning a WAV file's bytes into frames.
#[derive(Debug, PartialEq, Eq, Structural)]
pub enum Error {
    /// The bytes are not a well-formed WAV stream, or a sample could not be read.
    ParsingError,
    /// The file stores its samples at a bit depth this decoder does not take.
    UnsupportedBitsPerSample(u16),
    /// The file stores floating-point samples, which this fixed-point decoder
    /// leaves to its caller.
    UnsupportedSampleFormat,
}

/// How a WAV stream's sample data is to be decoded, given the fmt-chunk
/// fields: as 16-bit integers, as 32-bit integers, or not at all.
#[derive(Debug, PartialEq, Eq, Structural, Clone, Copy)]
pub enum DecodeRoute {
    Pcm16,
    Pcm32,
    FloatSamples,
    BadBitDepth,
}

/// The decoding rule: integer samples are taken at 16 or 32 bits per sample,
/// floating-point samples only at 32, and anything else is refused.
pub open spec fn spec_decode_route(bits: u16, is_float: bool) -> DecodeRoute {
    if is_float {
        if bits == 32 {
            DecodeRoute::FloatSamples
        } else {
            DecodeRoute::BadBitDepth
        }
    } else {
        if bits == 16 {
            DecodeRoute::Pcm16
        } else if bits == 32 {
            DecodeRoute::Pcm32
        } else {
            DecodeRoute::BadBitDepth
        }
    }
}

/// Chooses how to decode a WAV stream from its bit depth and sample format.
pub fn decode_route(bits: u16, is_float: bool) -> (r: DecodeRoute)
    ensures
        r == spec_decode_route(bits, is_float),
{
    if is_float {
        if bits == 32 {
            DecodeRoute::FloatSamples
        } else {
            DecodeRoute::BadBitDepth
        }
    } else {
        if bits == 16 {
            DecodeRoute::Pcm16
        } else if bits == 32 {
            DecodeRoute::Pcm32
        } else {
            DecodeRoute::BadBitDepth
        }
    }
}

/// Brings 16-bit samples to the 32-bit fixed-point scale: each value is
/// multiplied by 65536, so that full scale maps to full scale.
pub fn widen_16(samples: &Vec<i16>) -> (out: Vec<i32>)
    ensures
        out@ == spec_widen16(samples@),
{
    let mut out: Vec<i32> = Vec::new();
    let n = samples.len();
    let mut k: usize = 0;
    while k < n
        invariant
            k <= n,
            n == samples@.len(),
            out@.len() == k,
            forall|i: int| 0 <= i < k ==> out@[i] == samples@[i] * 65536,
        decreases n - k,
    {
        out.push((samples[k] as i32) * 65536);
        k += 1;
    }
    proof {
        assert(out@ =~= spec_widen16(samples@));
    }
    out
}

/// What hound reads from a WAV stream's fmt chunk, as plain values: the
/// channel count, the sample rate, the bits per sample, and whether the
/// samples are floating point — or nothing, when the bytes do not form a
/// readable WAV header. On an in-memory buffer this depends on the bytes
/// alone.
pub uninterp spec fn wav_fmt_of(bytes: Seq<u8>) -> Option<(u16, u32, u16, bool)>;

/// The complete sample stream hound decodes from a WAV stream's data chunk
/// as 16-bit integers, in stream order — or nothing, when the header is
/// unreadable, the samples are not 16-bit integers, or any sample fails to
/// decode. A function of the bytes alone.
pub uninterp spec fn wav_samples16_of(bytes: Seq<u8>) -> Option<Seq<i16>>;

/// As `wav_samples16_of`, but decoded as 32-bit integers: the complete
/// stream of an integer file of up to 32 bits, sign-extended — or nothing
/// on any failure.
pub uninterp spec fn wav_samples32_of(bytes: Seq<u8>) -> Option<Seq<i32>>;

/// Relies on hound::WavReader::new and WavReader::spec: the RIFF/WAVE
/// header is read and checked up to the data chunk, and the fmt-chunk
/// fields are handed on as plain values. On an in-memory buffer the outcome
/// is a function of the bytes — `wav_fmt_of` — and the one failure, an
/// unreadable header, becomes `ParsingError`.
#[verifier::external_body]
fn read_wav_format(bytes: &Vec<u8>) -> (r: Result<(u16, u32, u16, bool), Error>)
    ensures
        r matches Ok(parts) ==> wav_fmt_of(bytes@) == Some(parts),
        r matches Err(e) ==> e == Error::ParsingError && wav_fmt_of(bytes@) is None,
{
    let reader = match hound::WavReader::new(std::io::Cursor::new(bytes.clone())) {
        Ok(reader) => reader,
        Err(_) => return Err(Error::ParsingError),
    };
    let fmt = reader.spec();
    Ok((
        fmt.channels,
        fmt.sample_rate,
        fmt.bits_per_sample,
        match fmt.sample_format {
            hound::SampleFormat::Float => true,
            hound::SampleFormat::Int => false,
        },
    ))
}

/// Relies on hound's sample iterator (WavReader::samples::<i16>), which on
/// a 16-bit integer file yields every sample of the data chunk in stream
/// order. The outcome is a function of the bytes — `wav_samples16_of` — and
/// every failure (unreadable header, wrong format or width, short data)
/// becomes `ParsingError`.
#[verifier::external_body]
fn read_wav_samples16(bytes: &Vec<u8>) -> (r: Result<Vec<i16>, Error>)
    ensures
        r matches Ok(samples) ==> wav_samples16_of(bytes@) == Some(samples@),
        r matches Err(e) ==> e == Error::ParsingError && wav_samples16_of(bytes@) is None,
{
    let mut reader = match hound::WavReader::new(std::io::Cursor::new(bytes.clone())) {
        Ok(reader) => reader,
        Err(_) => return Err(Error::ParsingError),
    };
    match reader.samples::<i16>().collect::<Result<Vec<i16>, hound::Error>>() {
        Ok(samples) => Ok(samples),
        Err(_) => Err(Error::ParsingError),
    }
}

/// Relies on hound's sample iterator (WavReader::samples::<i32>), which on
/// an integer file of up to 32 bits yields every sample of the data chunk
/// in stream order, sign-extended. The outcome is a function of the bytes —
/// `wav_samples32_of` — and every failure becomes `ParsingError`.
#[verifier::external_body]
pub fn parse_wav_int(bytes: &Vec<u8>) -> (r: Result<Vec<i32>, Error>)
    ensures
        r matches Ok(samples) ==> wav_samples32_of(bytes@) == Some(samples@),
        r matches Err(e) ==> e == Error::ParsingError && wav_samples32_of(bytes@) is None,
{
    let mut reader = match hound::WavReader::new(std::io::Cursor::new(bytes.clone())) {
        Ok(reader) => reader,
        Err(_) => return Err(Error::ParsingError),
    };
    match reader.samples::<i32>().collect::<Result<Vec<i32>, hound::Error>>() {
        Ok(samples) => Ok(samples),
        Err(_) => Err(Error::ParsingError),
    }
}

/// `widen_16` on a whole sequence: every value multiplied by 65536.
pub open spec fn spec_widen16(s: Seq<i16>) -> Seq<i32> {
    Seq::new(s.len(), |i: int| (s[i] * 65536) as i32)
}

/// `pair_frames` on a whole sequence: sample `2k` and sample `2k + 1`
/// become frame `k`; an odd trailing sample is discarded.
pub open spec fn spec_pair_frames(s: Seq<i32>) -> Seq<StereoFrame> {
    Seq::new(s.len() / 2, |k: int| StereoFrame { left: s[2 * k], right: s[2 * k + 1] })
}

/// What `parse_wav` returns for given bytes, stated over hound's named
/// results. An unreadable header, or a failed sample read, is
/// `ParsingError`; a readable header routes by `spec_decode_route` —
/// floating-point samples to `UnsupportedSampleFormat`, an untaken bit
/// depth to `UnsupportedBitsPerSample` — and a decoded integer stream is
/// widened to full scale where it is 16-bit, then paired into frames.
pub open spec fn spec_parse_wav(bytes: Seq<u8>) -> Result<Seq<StereoFrame>, Error> {
    match wav_fmt_of(bytes) {
        None => Err(Error::ParsingError),
        Some(parts) => match spec_decode_route(parts.2, parts.3) {
            DecodeRoute::FloatSamples => Err(Error::UnsupportedSampleFormat),
            DecodeRoute::BadBitDepth => Err(Error::UnsupportedBitsPerSample(parts.2)),
            DecodeRoute::Pcm16 => match wav_samples16_of(bytes) {
                None => Err(Error::ParsingError),
                Some(s) => Ok(spec_pair_frames(spec_widen16(s))),
            },
            DecodeRoute::Pcm32 => match wav_samples32_of(bytes) {
                None => Err(Error::ParsingError),
                Some(s) => Ok(spec_pair_frames(s)),
            },
        },
    }
}

/// Turns the bytes of a WAV file into stereo frames, exactly as
/// `spec_parse_wav` says: the header is read by hound; the sample data is
/// decoded along `decode_route` — 16-bit integer samples widened by
/// `widen_16`, 32-bit ones taken as they are — and the interleaved samples
/// are paired into frames by `pair_frames`. Files at any other integer bit
/// depth are refused with `UnsupportedBitsPerSample`; floating-point files
/// are left to the caller with `UnsupportedSampleFormat`, since their
/// amplitudes have no fixed-point reading here.
pub fn parse_wav(bytes: Vec<u8>) -> (r: Result<Vec<StereoFrame>, Error>)
    ensures
        r matches Ok(frames) ==> spec_parse_wav(bytes@) == Ok::<Seq<StereoFrame>, Error>(
            frames@,
        ),
        r matches Err(e) ==> spec_parse_wav(bytes@) == Err::<Seq<StereoFrame>, Error>(e),
{
    let parts = match read_wav_format(&bytes) {
        Ok(parts) => parts,
        Err(e) => {
            return Err(e);
        },
    };
    let (_channels, _rate, bits, is_float) = parts;
    match decode_route(bits, is_float) {
        DecodeRoute::FloatSamples => Err(Error::UnsupportedSampleFormat),
        DecodeRoute::BadBitDepth => Err(Error::UnsupportedBitsPerSample(bits)),
        DecodeRoute::Pcm16 => {
            match read_wav_samples16(&bytes) {
                Ok(samples) => {
                    let wide = widen_16(&samples);
                    Ok(pair_frames(&wide))
                },
                Err(e) => Err(e),
            }
        },
        DecodeRoute::Pcm32 => {
            match parse_wav_int(&bytes) {
                Ok(samples) => Ok(pair_frames(&samples)),
                Err(e) => Err(e),
            }
        },
    }
}

/// Pairs interleaved channel samples into stereo frames: sample `2k` becomes
/// the left channel of frame `k` and sample `2k + 1` its right channel. An
/// odd trailing sample belongs to no pair and is discarded.
pub fn pair_frames(samples: &Vec<i32>) -> (out: Vec<StereoFrame>)
    ensures
        out@ == spec_pair_frames(samples@),
{
    let mut out: Vec<StereoFrame> = Vec::new();
    let n = samples.len() / 2;
    assert(2 * n <= samples@.len()) by {
        vstd::arithmetic::div_mod::lemma_fundamental_div_mod(samples@.len() as int, 2);
    }
    let mut k: usize = 0;
    while k < n
        invariant
            k <= n,
            n == samples@.len() / 2,
            2 * n <= samples@.len(),
            samples@.len() <= usize::MAX,
            out@.len() == k,
            forall|j: int|
                0 <= j < k ==> out@[j] == (StereoFrame {
                    left: samples@[2 * j],
                    right: samples@[2 * j + 1],
                }),
        decreases n - k,
    {
        assert(2 * k + 1 < samples@.len());
        let frame = StereoFrame { left: samples[2 * k], right: samples[2 * k + 1] };
        out.push(frame);
        k += 1;
    }
    proof {
        assert(out@ =~= spec_pair_frames(samples@));
    }
    out
}

} // verus!
