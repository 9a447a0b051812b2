use alfavoice::audio::encode_pcm16le;
use alfavoice::llm::LlmModel;
use alfavoice::protocol::{parse_client_message, server_message_json, ClientMessage, ServerMessage};
use alfavoice::session::{
    close_session, handle_binary_message, handle_text_message, open_session, process_audio_stub,
    SessionPhase, SessionStep,
};
use alfavoice::config::WhisperConfig;
use alfavoice::state::AppState;
use alfavoice::whisper::WhisperModel;
use base64::Engine;

#[test]
fn parse_ping_frame() {
    let r = parse_client_message("{\"type\":\"ping\"}");
    assert!(matches!(r, Some(ClientMessage::Ping)));

    // whitespace between tokens is fine
    let r = parse_client_message("  { \"type\" : \"ping\" }  ");
    assert!(matches!(r, Some(ClientMessage::Ping)));
}

#[test]
fn parse_audio_frame_either_member_order() {
    let r = parse_client_message("{\"type\":\"audio\",\"data\":\"QUJD\"}");
    match r {
        Some(ClientMessage::AudioData { data }) => assert_eq!(data, "QUJD"),
        _ => panic!("expected an audio message"),
    }
    let r = parse_client_message("{\"data\":\"QUJD\",\"type\":\"audio\"}");
    match r {
        Some(ClientMessage::AudioData { data }) => assert_eq!(data, "QUJD"),
        _ => panic!("expected an audio message"),
    }
}

#[test]
fn parse_unrecognized_frames() {
    assert!(parse_client_message("invalid json").is_none());
    assert!(parse_client_message("{\"type\": \"invalid\"}").is_none());
    assert!(parse_client_message("{\"type\": \"audio\"}").is_none());
    assert!(parse_client_message("").is_none());
    assert!(parse_client_message("{}").is_none());
    assert!(parse_client_message("{\"type\":\"ping\"} trailing").is_none());
}

#[test]
fn parse_rejects_escapes_and_extra_members() {
    // escape sequences inside strings are not part of the frame grammar
    assert!(parse_client_message("{\"type\":\"pi\\\"ng\"}").is_none());
    // an object of three members is not a frame
    assert!(parse_client_message(
        "{\"type\":\"audio\",\"data\":\"QUJD\",\"x\":\"y\"}"
    ).is_none());
}

#[test]
fn serialize_server_messages() {
    assert_eq!(
        server_message_json(&ServerMessage::Pong),
        "{\"type\":\"pong\"}"
    );
    assert_eq!(
        server_message_json(&ServerMessage::Transcription { text: "привет".to_string() }),
        "{\"type\":\"transcription\",\"text\":\"привет\"}"
    );
    assert_eq!(
        server_message_json(&ServerMessage::Error { message: "что-то".to_string() }),
        "{\"type\":\"error\",\"message\":\"что-то\"}"
    );
}

#[test]
fn serialize_escapes_json_strings() {
    let out = server_message_json(&ServerMessage::Transcription {
        text: "a\"b\\c\nd\te\u{1}".to_string(),
    });
    assert_eq!(
        out,
        "{\"type\":\"transcription\",\"text\":\"a\\\"b\\\\c\\nd\\te\\u0001\"}"
    );
}

#[test]
fn malformed_base64_yields_reply_and_session_survives() {
    let llm = LlmModel::default();
    // the frame the client sent with an unusable payload
    let step = handle_text_message(
        true,
        &llm,
        "{\"type\":\"audio\",\"data\":\"!!!not-base64!!!\"}",
    );
    match step {
        SessionStep::Reply(j) => {
            assert!(j.starts_with(
                "{\"type\":\"transcription\",\"text\":\"Ошибка декодирования аудио: "
            ));
        }
        _ => panic!("expected a reply describing the decode failure"),
    }
    // the connection stays open: a subsequent ping still gets a pong
    let step = handle_text_message(true, &llm, "{\"type\":\"ping\"}");
    match step {
        SessionStep::Reply(j) => assert_eq!(j, "{\"type\":\"pong\"}"),
        _ => panic!("expected a pong"),
    }
}

#[test]
fn unrecognized_frame_is_ignored() {
    let llm = LlmModel::default();
    let step = handle_text_message(true, &llm, "{\"type\": \"invalid\"}");
    assert!(matches!(step, SessionStep::Ignore));
}

#[test]
fn audio_frame_reaches_the_engine_path() {
    let llm = LlmModel::default();
    let samples: Vec<i16> = vec![7, -7, 700];
    let data = base64::engine::general_purpose::STANDARD.encode(encode_pcm16le(&samples));
    let frame = format!("{{\"type\":\"audio\",\"data\":\"{}\"}}", data);
    let step = handle_text_message(true, &llm, &frame);
    match step {
        SessionStep::RunInference(pcm) => assert_eq!(pcm, samples),
        _ => panic!("expected an inference request"),
    }
}

#[test]
fn binary_frame_reaches_the_engine_path() {
    let llm = LlmModel::default();
    let samples: Vec<i16> = vec![1, 2, 3];
    let bytes = encode_pcm16le(&samples);
    let step = handle_binary_message(true, &llm, &bytes);
    match step {
        SessionStep::RunInference(pcm) => assert_eq!(pcm, samples),
        _ => panic!("expected an inference request"),
    }
}

#[test]
fn empty_audio_is_rejected_without_engine_interaction() {
    let gateway = WhisperModel::new(WhisperConfig::new(4, 5, false));
    let llm = LlmModel::default();
    let step = handle_binary_message(true, &llm, &[]);
    match step {
        SessionStep::Reply(j) => {
            assert!(j.contains("Пустые аудио данные"));
        }
        _ => panic!("expected a conversion-failure reply"),
    }
    // the engine was never entered
    assert_eq!(gateway.completed_calls(), 0);
}

#[test]
fn stub_answers_without_an_engine() {
    let llm = LlmModel::default();
    let step = handle_text_message(false, &llm, "{\"type\":\"audio\",\"data\":\"QUJD\"}");
    match step {
        SessionStep::Reply(j) => {
            assert_eq!(
                j,
                "{\"type\":\"transcription\",\"text\":\"Короткий аудио фрагмент...\"}"
            );
        }
        _ => panic!("expected a stub reply"),
    }
}

#[test]
fn binary_stub_answers_without_an_engine() {
    let llm = LlmModel::default();
    let step = handle_binary_message(false, &llm, &[0u8; 4]);
    match step {
        SessionStep::Reply(j) => {
            assert_eq!(
                j,
                "{\"type\":\"transcription\",\"text\":\"Короткий аудио фрагмент (бинарный)...\"}"
            );
        }
        _ => panic!("expected a stub reply"),
    }
}

#[test]
fn stub_tiers_by_length() {
    assert_eq!(process_audio_stub(""), "Короткий аудио фрагмент...");
    let mid: String = "a".repeat(300);
    assert_eq!(
        process_audio_stub(&mid),
        "Средний аудио фрагмент с некоторым содержанием..."
    );
    let long: String = "a".repeat(600);
    assert_eq!(
        process_audio_stub(&long),
        "Длинный аудио фрагмент с полным содержанием..."
    );
}

#[test]
fn stub_tiers_by_byte_length() {
    // 51 Cyrillic letters take 102 UTF-8 bytes: the middle tier, though
    // only 51 characters
    let payload: String = "б".repeat(51);
    assert_eq!(payload.len(), 102);
    assert_eq!(
        process_audio_stub(&payload),
        "Средний аудио фрагмент с некоторым содержанием..."
    );
    // 260 Cyrillic letters take 520 bytes: the long tier
    let payload: String = "б".repeat(260);
    assert_eq!(
        process_audio_stub(&payload),
        "Длинный аудио фрагмент с полным содержанием..."
    );
}

#[test]
fn session_lifecycle_registers_and_deregisters_once() {
    let mut state = AppState::new();
    let (mut session, welcome) = open_session(&mut state, "client-1".to_string());
    assert_eq!(session.phase, SessionPhase::Open);
    assert_eq!(
        welcome,
        "{\"type\":\"transcription\",\"text\":\"Подключено к AlfaVoice Server\"}"
    );
    assert_eq!(state.client_count(), 1);

    close_session(&mut state, &mut session);
    assert_eq!(session.phase, SessionPhase::Closed);
    assert_eq!(state.client_count(), 0);

    // closing again changes nothing
    close_session(&mut state, &mut session);
    assert_eq!(state.client_count(), 0);
}

#[test]
fn three_sessions_close_one() {
    let mut state = AppState::new();
    let (mut s1, _) = open_session(&mut state, "a".to_string());
    let (mut s2, _) = open_session(&mut state, "b".to_string());
    let (_s3, _) = open_session(&mut state, "c".to_string());
    assert_eq!(state.client_count(), 3);

    // closing one session removes exactly its entry
    close_session(&mut state, &mut s2);
    assert_eq!(state.client_count(), 2);
    assert_eq!(state.clients[0].id, "a");
    assert_eq!(state.clients[1].id, "c");

    close_session(&mut state, &mut s1);
    assert_eq!(state.client_count(), 1);
    assert_eq!(state.clients[0].id, "c");
}

#[test]
fn deregistering_an_absent_id_is_a_no_op() {
    let mut state = AppState::new();
    state.add_client("x".to_string());
    state.remove_client("y");
    assert_eq!(state.client_count(), 1);
}
