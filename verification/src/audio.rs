use crate::error::{Result, SpeechApiError};
use crate::types::{AudioFormat, AudioFrame, VoicePayload};
use vstd::prelude::*;

verus! {

/// The unsigned 16-bit number whose two's-complement pattern is `sample`.
pub open spec fn sample_pattern(sample: i16) -> int {
    if sample < 0 {
        sample + 65536
    } else {
        sample as int
    }
}

/// The first byte of a sample on the wire: the low eight bits.
pub open spec fn sample_low_byte(sample: i16) -> u8 {
    (sample_pattern(sample) % 256) as u8
}

/// The second byte of a sample on the wire: the high eight bits.
pub open spec fn sample_high_byte(sample: i16) -> u8 {
    (sample_pattern(sample) / 256) as u8
}

/// The sample that two bytes, low byte first, stand for.
pub open spec fn sample_of_bytes(low: u8, high: u8) -> i16 {
    let pattern = low as int + 256 * (high as int);
    if pattern >= 32768 {
        (pattern - 65536) as i16
    } else {
        pattern as i16
    }
}

/// The samples packed in `bytes`: one for each whole pair, in order. A last
/// byte without a partner stands for nothing.
pub open spec fn samples_of_bytes(bytes: Seq<u8>) -> Seq<i16> {
    Seq::new(
        (bytes.len() / 2) as nat,
        |i: int| sample_of_bytes(bytes[2 * i], bytes[2 * i + 1]),
    )
}

/// The bytes that `samples` pack to: two for each, low byte first.
pub open spec fn bytes_of_samples(samples: Seq<i16>) -> Seq<u8> {
    Seq::new(
        2 * samples.len(),
        |i: int|
            if i % 2 == 0 {
                sample_low_byte(samples[i / 2])
            } else {
                sample_high_byte(samples[i / 2])
            },
    )
}

/// What the standard base64 alphabet with padding decodes `text` to, or
/// `None` where `text` is not valid in it.
pub uninterp spec fn base64_standard_decoding(text: Seq<char>) -> Option<Seq<u8>>;

/// Calls `Engine::decode` of the base64 crate on its `STANDARD` engine.
/// The contract only names the outcome: the bytes on success, and a
/// rejection exactly where the engine reports a decode error.
#[verifier::external_body]
fn base64_decode(text: &str) -> (r: Option<Vec<u8>>)
    ensures
        match r {
            Some(bytes) => base64_standard_decoding(text@) == Some(bytes@),
            None => base64_standard_decoding(text@).is_none(),
        },
{
    base64::Engine::decode(&base64::engine::general_purpose::STANDARD, text).ok()
}

fn low_byte(sample: i16) -> (r: u8)
    ensures
        r == sample_low_byte(sample),
{
    let wide: i32 = sample as i32;
    let pattern: i32 = if wide < 0 {
        wide + 65536
    } else {
        wide
    };
    (pattern % 256) as u8
}

fn high_byte(sample: i16) -> (r: u8)
    ensures
        r == sample_high_byte(sample),
{
    let wide: i32 = sample as i32;
    let pattern: i32 = if wide < 0 {
        wide + 65536
    } else {
        wide
    };
    (pattern / 256) as u8
}

fn join_bytes(low: u8, high: u8) -> (r: i16)
    ensures
        r == sample_of_bytes(low, high),
{
    let pattern: i32 = low as i32 + 256 * (high as i32);
    if pattern >= 32768 {
        (pattern - 65536) as i16
    } else {
        pattern as i16
    }
}

/// Stateless conversions between wire audio and samples.
pub struct AudioUtils;

impl AudioUtils {
    /// Unpacks little-endian signed 16-bit samples. Only whole pairs are
    /// read: a trailing odd byte is dropped without complaint.
    pub fn bytes_to_samples(bytes: &[u8]) -> (samples: Vec<i16>)
        ensures
            samples@ == samples_of_bytes(bytes@),
    {
        let count: usize = bytes.len() / 2;
        let mut samples: Vec<i16> = Vec::new();
        let mut i: usize = 0;
        while i < count
            invariant
                count == bytes@.len() / 2,
                bytes@.len() <= usize::MAX,
                i <= count,
                samples@.len() == i,
                forall|k: int|
                    0 <= k < i ==> samples@[k] == sample_of_bytes(
                        bytes@[2 * k],
                        bytes@[2 * k + 1],
                    ),
            decreases count - i,
        {
            samples.push(join_bytes(bytes[2 * i], bytes[2 * i + 1]));
            i += 1;
        }
        assert(samples@ =~= samples_of_bytes(bytes@));
        samples
    }

    /// Decodes the audio of a voice event: base64 text to bytes, bytes to
    /// samples. Fails, with `InvalidAudioFormat`, exactly where the text is
    /// not valid base64.
    pub fn decode_voice_audio(voice_payload: &VoicePayload) -> (r: Result<Vec<i16>>)
        ensures
            match base64_standard_decoding(voice_payload.audio@) {
                Some(bytes) => r is Ok && r->Ok_0@ == samples_of_bytes(bytes),
                None => r == Err::<Vec<i16>, SpeechApiError>(SpeechApiError::InvalidAudioFormat),
            },
    {
        match base64_decode(voice_payload.audio.as_str()) {
            Some(bytes) => Ok(Self::bytes_to_samples(bytes.as_slice())),
            None => Err(SpeechApiError::InvalidAudioFormat),
        }
    }

    /// Pairs bytes with a format tag. The tag is not held against the bytes.
    pub fn create_audio_frame(data: Vec<u8>, format: AudioFormat) -> (frame: AudioFrame)
        ensures
            frame.data == data,
            frame.format == format,
    {
        AudioFrame { data, format }
    }

    /// Packs samples as little-endian bytes, two for each, with no padding.
    pub fn samples_to_bytes(samples: &[i16]) -> (bytes: Vec<u8>)
        ensures
            bytes@ == bytes_of_samples(samples@),
    {
        let mut bytes: Vec<u8> = Vec::new();
        let mut i: usize = 0;
        while i < samples.len()
            invariant
                i <= samples@.len(),
                bytes@.len() == 2 * i,
                forall|k: int|
                    0 <= k < 2 * i ==> bytes@[k] == (if k % 2 == 0 {
                        sample_low_byte(samples@[k / 2])
                    } else {
                        sample_high_byte(samples@[k / 2])
                    }),
            decreases samples@.len() - i,
        {
            let sample: i16 = samples[i];
            bytes.push(low_byte(sample));
            bytes.push(high_byte(sample));
            i += 1;
        }
        assert(bytes@ =~= bytes_of_samples(samples@));
        bytes
    }
}

/// Two bytes read as a sample and written back are the same two bytes.
pub proof fn lemma_sample_round_trip(low: u8, high: u8)
    ensures
        sample_low_byte(sample_of_bytes(low, high)) == low,
        sample_high_byte(sample_of_bytes(low, high)) == high,
{
}

/// A sample written as two bytes and read back is the same sample.
pub proof fn lemma_bytes_round_trip(sample: i16)
    ensures
        sample_of_bytes(sample_low_byte(sample), sample_high_byte(sample)) == sample,
{
}

/// Unpacking bytes and packing the samples again gives back the bytes
/// without the unpaired last one: all of them where the length is even.
pub proof fn lemma_bytes_samples_bytes(bytes: Seq<u8>)
    ensures
        bytes_of_samples(samples_of_bytes(bytes)) == bytes.take(
            bytes.len() - bytes.len() % 2,
        ),
        bytes.len() % 2 == 0 ==> bytes_of_samples(samples_of_bytes(bytes)) == bytes,
{
    let samples = samples_of_bytes(bytes);
    let back = bytes_of_samples(samples);
    let kept = bytes.take(bytes.len() - bytes.len() % 2);
    assert(back.len() == kept.len());
    assert forall|i: int| 0 <= i < back.len() implies back[i] == kept[i] by {
        let k = i / 2;
        lemma_sample_round_trip(bytes[2 * k], bytes[2 * k + 1]);
    }
    assert(back =~= kept);
    if bytes.len() % 2 == 0 {
        assert(kept =~= bytes);
    }
}

/// Packing samples and unpacking the bytes again gives back the samples.
pub proof fn lemma_samples_bytes_samples(samples: Seq<i16>)
    ensures
        samples_of_bytes(bytes_of_samples(samples)) == samples,
{
    let bytes = bytes_of_samples(samples);
    let back = samples_of_bytes(bytes);
    assert(back.len() == samples.len());
    assert forall|i: int| 0 <= i < back.len() implies back[i] == samples[i] by {
        lemma_bytes_round_trip(samples[i]);
        assert((2 * i) % 2 == 0);
        assert((2 * i + 1) % 2 == 1);
        assert((2 * i) / 2 == i);
        assert((2 * i + 1) / 2 == i);
    }
    assert(back =~= samples);
}

} // verus!
