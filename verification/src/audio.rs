//! Audio normalization: inbound wire-format audio (base64-encoded text
//! frames or raw binary frames) is turned into a canonical sample buffer.
//!
//! The wire format is little-endian 16-bit signed PCM, mono, 16 kHz. A
//! sample is kept as the `i16` it was transmitted as; the engine's
//! amplitude scale (division by 32768) is a fixed rescaling of that value.

use vstd::prelude::*;

use base64::Engine;

verus! {

/// The canonical sample rate, in hertz.
pub const SAMPLE_RATE: u32 = 16000;

/// The mathematical value of one little-endian 16-bit signed sample.
pub open spec fn sample_val(lo: u8, hi: u8) -> i16 {
    let u = lo + 256 * (hi as int);
    (if u >= 32768 {
        u - 65536
    } else {
        u
    }) as i16
}

/// The samples encoded by a PCM16LE byte sequence; a trailing odd byte is
/// dropped.
pub open spec fn decoded_samples(b: Seq<u8>) -> Seq<i16> {
    Seq::new((b.len() as int / 2) as nat, |i: int| sample_val(b[2 * i], b[2 * i + 1]))
}

/// A 16-bit sample as its unsigned (two's-complement) value.
pub open spec fn sample_unsigned(s: i16) -> int {
    if s < 0 {
        s + 65536
    } else {
        s as int
    }
}

/// The low byte of a sample's little-endian encoding.
pub open spec fn sample_lo(s: i16) -> u8 {
    (sample_unsigned(s) % 256) as u8
}

/// The high byte of a sample's little-endian encoding.
pub open spec fn sample_hi(s: i16) -> u8 {
    (sample_unsigned(s) / 256) as u8
}

/// The PCM16LE byte sequence encoding a sample sequence.
pub open spec fn encoded_bytes(s: Seq<i16>) -> Seq<u8> {
    Seq::new(
        (2 * s.len() as int) as nat,
        |i: int|
            if i % 2 == 0 {
                sample_lo(s[i / 2])
            } else {
                sample_hi(s[i / 2])
            },
    )
}

/// Law: encoding samples to PCM16LE bytes and decoding the bytes back
/// reproduces the samples exactly.
pub proof fn lemma_pcm_round_trip(s: Seq<i16>)
    ensures
        decoded_samples(encoded_bytes(s)) == s,
{
    let b = encoded_bytes(s);
    assert(b.len() == 2 * s.len());
    assert forall|i: int| 0 <= i < s.len() implies decoded_samples(b)[i] == s[i] by {
        assert((2 * i) % 2 == 0);
        assert((2 * i + 1) % 2 == 1);
        assert((2 * i) / 2 == i);
        assert((2 * i + 1) / 2 == i);
        let u = sample_unsigned(s[i]);
        vstd::arithmetic::div_mod::lemma_fundamental_div_mod(u, 256);
        assert(b[2 * i] == sample_lo(s[i]));
        assert(b[2 * i + 1] == sample_hi(s[i]));
        assert(sample_lo(s[i]) + 256 * (sample_hi(s[i]) as int) == u);
    }
    assert(decoded_samples(b) =~= s);
}

/// Reads one sample out of its two little-endian bytes.
fn pcm_sample(lo: u8, hi: u8) -> (r: i16)
    ensures
        r == sample_val(lo, hi),
{
    let u: u32 = lo as u32 + 256 * (hi as u32);
    let s: i32 = if u >= 32768 {
        u as i32 - 65536
    } else {
        u as i32
    };
    s as i16
}

/// Converts raw PCM16LE bytes into the canonical sample buffer.
///
/// Fails exactly on empty input; a trailing odd byte is silently dropped.
pub fn convert_audio_to_pcm(audio_data: &[u8]) -> (r: Result<Vec<i16>, String>)
    ensures
        audio_data@.len() == 0 <==> r is Err,
        r matches Ok(v) ==> v@ == decoded_samples(audio_data@),
        r matches Err(m) ==> m@ == "Пустые аудио данные"@,
{
    if audio_data.len() == 0 {
        return Err("Пустые аудио данные".to_owned());
    }
    let n = audio_data.len();
    let mut pcm: Vec<i16> = Vec::new();
    let mut k: usize = 0;
    while k + 1 < n
        invariant
            n == audio_data@.len(),
            k % 2 == 0,
            k <= n,
            pcm@.len() == k as int / 2,
            forall|i: int| 0 <= i < k as int / 2 ==> pcm@[i] == decoded_samples(audio_data@)[i],
        decreases n - k,
    {
        let lo = audio_data[k];
        let hi = audio_data[k + 1];
        pcm.push(pcm_sample(lo, hi));
        proof {
            assert(2 * (k as int / 2) == k as int);
            assert(decoded_samples(audio_data@)[k as int / 2] == sample_val(
                audio_data@[k as int],
                audio_data@[k as int + 1],
            ));
        }
        k = k + 2;
    }
    proof {
        assert(k as int / 2 == audio_data@.len() as int / 2);
        assert(pcm@ =~= decoded_samples(audio_data@));
    }
    Ok(pcm)
}

/// Encodes a sample buffer as PCM16LE bytes (the inverse of
/// `convert_audio_to_pcm` on even-length input).
pub fn encode_pcm16le(samples: &Vec<i16>) -> (r: Vec<u8>)
    ensures
        r@ == encoded_bytes(samples@),
{
    let n = samples.len();
    let mut out: Vec<u8> = Vec::new();
    let mut i: usize = 0;
    while i < n
        invariant
            n == samples@.len(),
            i <= n,
            out@.len() == 2 * i,
            forall|j: int| 0 <= j < 2 * i ==> out@[j] == encoded_bytes(samples@)[j],
        decreases n - i,
    {
        let s = samples[i];
        let u: u32 = if s < 0 {
            (s as i32 + 65536) as u32
        } else {
            s as u32
        };
        out.push((u % 256) as u8);
        out.push((u / 256) as u8);
        proof {
            let idx = 2 * i as int;
            assert(idx % 2 == 0);
            assert((idx + 1) % 2 == 1);
            assert(idx / 2 == i as int);
            assert((idx + 1) / 2 == i as int);
            assert(out@[idx] == sample_lo(samples@[i as int]));
            assert(out@[idx + 1] == sample_hi(samples@[i as int]));
        }
        i = i + 1;
    }
    proof {
        assert(out@ =~= encoded_bytes(samples@));
    }
    out
}

/// What the standard base64 alphabet decodes a text to, or `None` where
/// the text is not valid base64.
pub uninterp spec fn b64_decoding(s: Seq<char>) -> Option<Seq<u8>>;

/// Relies on base64's `STANDARD` engine: `decode` is a function of the
/// input text alone, returning its decoded bytes, or an error exactly on
/// text that is not valid padded standard-alphabet base64.
#[verifier::external_body]
fn b64_standard_decode(data: &str) -> (r: Result<Vec<u8>, String>)
    ensures
        r matches Ok(v) ==> b64_decoding(data@) == Some(v@),
        r is Err ==> b64_decoding(data@) is None,
{
    base64::engine::general_purpose::STANDARD.decode(data).map_err(|e| e.to_string())
}

/// Decodes a base64 text frame into raw bytes; a failure reports the
/// decoder's message.
pub fn base64_decode(data: &str) -> (r: Result<Vec<u8>, String>)
    ensures
        r matches Ok(v) ==> b64_decoding(data@) == Some(v@),
        r is Err ==> b64_decoding(data@) is None,
        r matches Err(m) ==> exists|e: Seq<char>|
            m@ == "Ошибка декодирования base64: "@ + e,
{
    match b64_standard_decode(data) {
        Ok(v) => Ok(v),
        Err(e) => {
            let mut msg = "Ошибка декодирования base64: ".to_owned();
            msg.append(e.as_str());
            proof {
                assert(msg@ == "Ошибка декодирования base64: "@ + e@);
            }
            Err(msg)
        },
    }
}

/// One inbound audio frame, as received on the wire.
pub enum AudioChunk {
    /// A text frame carrying base64-encoded PCM16LE bytes.
    Text(String),
    /// A binary frame carrying raw PCM16LE bytes.
    Binary(Vec<u8>),
}

/// The raw bytes an audio chunk carries, or `None` where a text frame is
/// not valid base64.
pub open spec fn chunk_bytes(chunk: AudioChunk) -> Option<Seq<u8>> {
    match chunk {
        AudioChunk::Text(s) => b64_decoding(s@),
        AudioChunk::Binary(b) => Some(b@),
    }
}

/// A canonical sample buffer: mono 16 kHz samples.
pub struct NormalizedAudio {
    pub samples: Vec<i16>,
    pub sample_rate: u32,
    pub channels: u8,
}

impl NormalizedAudio {
    /// The canonical layout: fixed 16 kHz rate, one channel.
    pub open spec fn wf(&self) -> bool {
        self.sample_rate == SAMPLE_RATE && self.channels == 1
    }
}

/// Why an audio chunk could not be normalized.
#[derive(Debug)]
pub enum AudioError {
    /// The chunk carried no bytes at all.
    EmptyAudio,
    /// A text frame was not valid base64; carries the decoder's message.
    Decode(String),
}

/// Normalizes one inbound audio chunk: text frames are base64-decoded
/// first, then both kinds are read as PCM16LE.
pub fn normalize(chunk: AudioChunk) -> (r: Result<NormalizedAudio, AudioError>)
    ensures
        r matches Ok(a) ==> {
            &&& a.wf()
            &&& chunk_bytes(chunk) matches Some(b) && b.len() > 0 && a.samples@
                == decoded_samples(b)
        },
        r == Err::<NormalizedAudio, AudioError>(AudioError::EmptyAudio) <==> chunk_bytes(chunk)
            == Some(Seq::<u8>::empty()),
        (r matches Err(e) && e matches AudioError::Decode(m)) ==> chunk_bytes(chunk) is None,
        chunk_bytes(chunk) is None ==> (r matches Err(e) && e matches AudioError::Decode(m)),
{
    let bytes: Vec<u8> = match chunk {
        AudioChunk::Binary(b) => b,
        AudioChunk::Text(s) => {
            match base64_decode(s.as_str()) {
                Ok(b) => b,
                Err(m) => {
                    return Err(AudioError::Decode(m));
                },
            }
        },
    };
    if bytes.len() == 0 {
        proof {
            assert(bytes@ =~= Seq::<u8>::empty());
        }
        return Err(AudioError::EmptyAudio);
    }
    match convert_audio_to_pcm(bytes.as_slice()) {
        Ok(samples) => Ok(
            NormalizedAudio { samples, sample_rate: SAMPLE_RATE, channels: 1 },
        ),
        Err(_) => Err(AudioError::EmptyAudio),
    }
}

} // verus!
