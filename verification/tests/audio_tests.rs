use alfavoice::audio::{
    base64_decode, convert_audio_to_pcm, encode_pcm16le, normalize, AudioChunk, AudioError,
};
use base64::Engine;

#[test]
fn test_convert_audio_to_pcm() {
    let test_data: Vec<u8> = vec![
        0x00, 0x00, // 0
        0x7F, 0x7F, // ~32767
        0x00, 0x80, // -32768
    ];

    let result = convert_audio_to_pcm(&test_data);
    assert!(result.is_ok());

    let pcm: Vec<f32> = result.unwrap().iter().map(|&s| s as f32 / 32768.0).collect();
    assert_eq!(pcm.len(), 3);
    assert!((pcm[0] - 0.0).abs() < 0.01);
    assert!((pcm[1] - 1.0).abs() < 0.01);
    assert!((pcm[2] - (-1.0)).abs() < 0.01);
}

#[test]
fn test_convert_empty_audio() {
    let result = convert_audio_to_pcm(&[]);
    assert!(result.is_err());
}

#[test]
fn pcm_round_trip_reproduces_samples() {
    let samples: Vec<i16> = vec![0, 1, -1, 32767, -32768, 12345, -12345];
    let bytes = encode_pcm16le(&samples);
    assert_eq!(bytes.len(), 2 * samples.len());
    let back = convert_audio_to_pcm(&bytes).unwrap();
    assert_eq!(back, samples);
}

#[test]
fn pcm_round_trip_quantization_tolerance() {
    // amplitude 1.0 encodes as 0x7F,0x7F and comes back within 1/32768
    let bytes: Vec<u8> = vec![0x7F, 0x7F];
    let pcm = convert_audio_to_pcm(&bytes).unwrap();
    let amp = pcm[0] as f32 / 32768.0;
    assert!((amp - 1.0).abs() <= 1.0 / 32768.0 + 0.005);
    let re = encode_pcm16le(&pcm);
    assert_eq!(re, bytes);
}

#[test]
fn pcm_trailing_odd_byte_is_dropped() {
    let bytes: Vec<u8> = vec![0x01, 0x00, 0x7F];
    let pcm = convert_audio_to_pcm(&bytes).unwrap();
    assert_eq!(pcm, vec![1i16]);
}

#[test]
fn normalize_empty_chunk_is_rejected() {
    let r = normalize(AudioChunk::Binary(Vec::new()));
    assert!(matches!(r, Err(AudioError::EmptyAudio)));

    // an empty base64 text decodes to no bytes at all
    let r = normalize(AudioChunk::Text(String::new()));
    assert!(matches!(r, Err(AudioError::EmptyAudio)));
}

#[test]
fn normalize_malformed_base64_is_a_decode_error() {
    let r = normalize(AudioChunk::Text("!!!not-base64!!!".to_string()));
    match r {
        Err(AudioError::Decode(m)) => {
            assert!(m.starts_with("Ошибка декодирования base64: "))
        }
        _ => panic!("expected a decode error"),
    }
}

#[test]
fn normalize_reads_base64_pcm() {
    let samples: Vec<i16> = vec![100, -200, 300];
    let bytes = encode_pcm16le(&samples);
    let data = base64::engine::general_purpose::STANDARD.encode(&bytes);
    let audio = normalize(AudioChunk::Text(data)).unwrap();
    assert_eq!(audio.samples, samples);
    assert_eq!(audio.sample_rate, 16000);
    assert_eq!(audio.channels, 1);
}

#[test]
fn base64_decode_matches_the_decoder() {
    // the decoded bytes differ from the text handed in
    assert_eq!(base64_decode("AQID").unwrap(), vec![1u8, 2, 3]);
    let err = base64_decode("!!!").unwrap_err();
    assert!(err.starts_with("Ошибка декодирования base64: "));
}
