//! The session manager's decisions: what to do with each inbound frame,
//! how a session opens and closes, and how an engine answer becomes the
//! reply frame.
//!
//! The connection itself (reading frames, sending replies, running the
//! engine) is an outside concern; the caller drives these functions from
//! its receive loop. Errors at any pipeline stage downstream of
//! normalization become a `transcription` reply carrying a human-readable
//! error text — the connection survives individual request failures.

use vstd::prelude::*;

use crate::audio::{
    b64_decoding,
    convert_audio_to_pcm,
    decoded_samples,
    normalize,
    AudioChunk,
    AudioError,
};
use crate::bert::{spec_basic_postprocessing, BertModel};
use crate::chain::{bert_attempt_succeeds, refine};
use crate::chars::{str_to_chars, utf8_len, utf8_len_chars};
use crate::llm::LlmModel;
use crate::protocol::{
    parse_client_message,
    server_message_json,
    spec_audio_payload,
    spec_is_ping,
    spec_pong_json,
    spec_transcription_json,
    ClientMessage,
    ServerMessage,
};
use crate::state::{without_id, AppState};

verus! {

/// Where a session stands in its life.
#[derive(Debug, Clone, Copy, PartialEq, Eq, Structural)]
pub enum SessionPhase {
    /// The connection upgrade is under way.
    Connecting,
    /// The session serves requests.
    Open,
    /// The session is shutting down.
    Closing,
    /// The session is gone; its registry entry has been removed.
    Closed,
}

/// One client's session: its identity and where it stands.
pub struct Session {
    /// The client's unique identifier.
    pub id: String,
    /// Where the session stands in its life.
    pub phase: SessionPhase,
}

/// What the session manager does with one inbound frame.
pub enum SessionStep {
    /// Send this frame back on the same connection.
    Reply(String),
    /// Run these samples through the engine (exclusive access), then build
    /// the reply with `finish_transcription`.
    RunInference(Vec<i16>),
    /// Log and ignore the frame; the connection stays open.
    Ignore,
}

/// Opens a session: registers the client and hands back the session and
/// the welcome frame to send.
pub fn open_session(state: &mut AppState, client_id: String) -> (r: (Session, String))
    ensures
        r.0.phase == SessionPhase::Open,
        r.0.id@ == client_id@,
        final(state).clients@.len() == old(state).clients@.len() + 1,
        forall|i: int|
            0 <= i < old(state).clients@.len() ==> final(state).clients@[i] == old(
                state,
            ).clients@[i],
        final(state).clients@.last().id@ == client_id@,
        final(state).whisper_model == old(state).whisper_model,
        final(state).llm_model == old(state).llm_model,
        final(state).bert_model == old(state).bert_model,
        r.1@ == spec_transcription_json("Подключено к AlfaVoice Server"@),
{
    let id_copy = client_id.clone();
    state.add_client(client_id);
    let welcome = server_message_json(
        &ServerMessage::Transcription { text: "Подключено к AlfaVoice Server".to_owned() },
    );
    (Session { id: id_copy, phase: SessionPhase::Open }, welcome)
}

/// Closes a session: deregisters the client exactly once, whatever ended
/// the session (a close frame, a transport error, a send failure).
/// Closing an already-closed session changes nothing.
pub fn close_session(state: &mut AppState, session: &mut Session)
    ensures
        final(session).phase == SessionPhase::Closed,
        final(session).id == old(session).id,
        old(session).phase != SessionPhase::Closed ==> final(state).clients@ == without_id(
            old(state).clients@,
            old(session).id@,
        ) && final(state).whisper_model == old(state).whisper_model && final(state).llm_model
            == old(state).llm_model && final(state).bert_model == old(state).bert_model,
        old(session).phase == SessionPhase::Closed ==> *final(state) == *old(state),
{
    if !matches!(session.phase, SessionPhase::Closed) {
        session.phase = SessionPhase::Closing;
        state.remove_client(session.id.as_str());
        session.phase = SessionPhase::Closed;
    }
}

/// The engine path for one audio payload: base64-decode it, read it as
/// PCM16LE, and either ask for an inference run or reply with the decode
/// failure. A failure never closes the connection.
pub fn audio_data_step(data: &str) -> (r: SessionStep)
    ensures
        b64_decoding(data@) is None ==> (r matches SessionStep::Reply(j) && exists|m: Seq<char>|
            j@ == spec_transcription_json("Ошибка декодирования аудио: "@ + m)),
        b64_decoding(data@) matches Some(b) ==> {
            &&& b.len() == 0 ==> (r matches SessionStep::Reply(j) && j@
                == spec_transcription_json(
                "Ошибка конвертации аудио: "@ + "Пустые аудио данные"@,
            ))
            &&& b.len() > 0 ==> (r matches SessionStep::RunInference(pcm) && pcm@
                == decoded_samples(b))
        },
{
    match normalize(AudioChunk::Text(data.to_owned())) {
        Ok(audio) => SessionStep::RunInference(audio.samples),
        Err(AudioError::Decode(m)) => {
            let mut text = "Ошибка декодирования аудио: ".to_owned();
            text.append(m.as_str());
            proof {
                assert(text@ == "Ошибка декодирования аудио: "@ + m@);
            }
            SessionStep::Reply(server_message_json(&ServerMessage::Transcription { text }))
        },
        Err(AudioError::EmptyAudio) => {
            let mut text = "Ошибка конвертации аудио: ".to_owned();
            text.append("Пустые аудио данные");
            SessionStep::Reply(server_message_json(&ServerMessage::Transcription { text }))
        },
    }
}

/// The engine path for one binary frame: read it as PCM16LE and either ask
/// for an inference run or reply with the failure.
pub fn audio_binary_step(data: &[u8]) -> (r: SessionStep)
    ensures
        data@.len() == 0 ==> (r matches SessionStep::Reply(j) && j@ == spec_transcription_json(
            "Ошибка конвертации аудио: "@ + "Пустые аудио данные"@,
        )),
        data@.len() > 0 ==> (r matches SessionStep::RunInference(pcm) && pcm@ == decoded_samples(
            data@,
        )),
{
    match convert_audio_to_pcm(data) {
        Err(m) => {
            let mut text = "Ошибка конвертации аудио: ".to_owned();
            text.append(m.as_str());
            SessionStep::Reply(server_message_json(&ServerMessage::Transcription { text }))
        },
        Ok(pcm) => SessionStep::RunInference(pcm),
    }
}

/// Builds the reply frame out of the engine's answer: a transcript is run
/// through the postprocessing chain; an engine failure becomes a
/// `transcription` reply carrying the error text. Either way the
/// connection stays open.
pub fn finish_transcription(
    outcome: Result<String, String>,
    bert: Option<&BertModel>,
    llm: &LlmModel,
) -> (r: String)
    ensures
        outcome matches Ok(t) ==> {
            &&& bert_attempt_succeeds(bert, t@) ==> r@ == spec_transcription_json(
                spec_basic_postprocessing(t@),
            )
            &&& !bert_attempt_succeeds(bert, t@) ==> r@ == spec_transcription_json(t@)
        },
        outcome matches Err(e) ==> r@ == spec_transcription_json(
            "Ошибка транскрипции: "@ + e@,
        ),
{
    match outcome {
        Ok(text) => {
            let refined = refine(bert, llm, text.as_str());
            server_message_json(&ServerMessage::Transcription { text: refined.text })
        },
        Err(e) => {
            let mut text = "Ошибка транскрипции: ".to_owned();
            text.append(e.as_str());
            server_message_json(&ServerMessage::Transcription { text })
        },
    }
}

/// The stand-in transcript used while no engine is loaded, tiered by the
/// payload's length in UTF-8 bytes.
pub open spec fn spec_audio_stub(n: int) -> Seq<char> {
    if n <= 100 {
        "Короткий аудио фрагмент..."@
    } else if n <= 500 {
        "Средний аудио фрагмент с некоторым содержанием..."@
    } else {
        "Длинный аудио фрагмент с полным содержанием..."@
    }
}

/// The stand-in transcript for one text-frame payload while no engine is
/// loaded.
pub fn process_audio_stub(data: &str) -> (r: String)
    ensures
        r@ == spec_audio_stub(utf8_len(data@)),
{
    let chars = str_to_chars(data);
    let n = utf8_len_chars(&chars);
    if n <= 100 {
        "Короткий аудио фрагмент...".to_owned()
    } else if n <= 500 {
        "Средний аудио фрагмент с некоторым содержанием...".to_owned()
    } else {
        "Длинный аудио фрагмент с полным содержанием...".to_owned()
    }
}

/// The stand-in transcript used for binary frames while no engine is
/// loaded, tiered by the frame's length in bytes.
pub open spec fn spec_audio_binary_stub(n: int) -> Seq<char> {
    if n <= 1000 {
        "Короткий аудио фрагмент (бинарный)..."@
    } else if n <= 5000 {
        "Средний аудио фрагмент с некоторым содержанием (бинарный)..."@
    } else {
        "Длинный аудио фрагмент с полным содержанием (бинарный)..."@
    }
}

/// The stand-in transcript for one binary frame while no engine is loaded.
pub fn process_audio_binary_stub(data: &[u8]) -> (r: String)
    ensures
        r@ == spec_audio_binary_stub(data@.len() as int),
{
    let n = data.len();
    if n <= 1000 {
        "Короткий аудио фрагмент (бинарный)...".to_owned()
    } else if n <= 5000 {
        "Средний аудио фрагмент с некоторым содержанием (бинарный)...".to_owned()
    } else {
        "Длинный аудио фрагмент с полным содержанием (бинарный)...".to_owned()
    }
}

/// Decides what to do with one inbound text frame: a ping is answered
/// with a pong; an audio frame enters the engine path (or, with no engine
/// loaded, is answered with the post-processed stand-in transcript); an
/// unrecognized frame is ignored and the connection stays open.
pub fn handle_text_message(has_engine: bool, llm: &LlmModel, text: &str) -> (r: SessionStep)
    ensures
        spec_is_ping(text@) ==> (r matches SessionStep::Reply(j) && j@ == spec_pong_json()),
        (!spec_is_ping(text@) && spec_audio_payload(text@) is None) ==> r
            matches SessionStep::Ignore,
        spec_audio_payload(text@) matches Some(d) ==> {
            &&& (has_engine && b64_decoding(d) is None) ==> (r matches SessionStep::Reply(j)
                && exists|m: Seq<char>|
                j@ == spec_transcription_json("Ошибка декодирования аудио: "@ + m))
            &&& b64_decoding(d) matches Some(b) ==> {
                &&& (has_engine && b.len() == 0) ==> (r matches SessionStep::Reply(j) && j@
                    == spec_transcription_json(
                    "Ошибка конвертации аудио: "@ + "Пустые аудио данные"@,
                ))
                &&& (has_engine && b.len() > 0) ==> (r matches SessionStep::RunInference(pcm)
                    && pcm@ == decoded_samples(b))
            }
            &&& !has_engine ==> (r matches SessionStep::Reply(j) && j@
                == spec_transcription_json(spec_audio_stub(utf8_len(d))))
        },
{
    match parse_client_message(text) {
        None => SessionStep::Ignore,
        Some(ClientMessage::Ping) => {
            SessionStep::Reply(server_message_json(&ServerMessage::Pong))
        },
        Some(ClientMessage::AudioData { data }) => {
            if has_engine {
                audio_data_step(data.as_str())
            } else {
                let stub_text = process_audio_stub(data.as_str());
                match llm.post_process(stub_text.as_str()) {
                    Ok(processed) => {
                        SessionStep::Reply(
                            server_message_json(
                                &ServerMessage::Transcription { text: processed },
                            ),
                        )
                    },
                    Err(_) => {
                        SessionStep::Reply(
                            server_message_json(
                                &ServerMessage::Transcription { text: stub_text },
                            ),
                        )
                    },
                }
            }
        },
    }
}

/// Decides what to do with one inbound binary frame: it enters the engine
/// path (or, with no engine loaded, is answered with the post-processed
/// stand-in transcript).
pub fn handle_binary_message(has_engine: bool, llm: &LlmModel, data: &[u8]) -> (r: SessionStep)
    ensures
        (has_engine && data@.len() == 0) ==> (r matches SessionStep::Reply(j) && j@
            == spec_transcription_json(
            "Ошибка конвертации аудио: "@ + "Пустые аудио данные"@,
        )),
        (has_engine && data@.len() > 0) ==> (r matches SessionStep::RunInference(pcm) && pcm@
            == decoded_samples(data@)),
        !has_engine ==> (r matches SessionStep::Reply(j) && j@ == spec_transcription_json(
            spec_audio_binary_stub(data@.len() as int),
        )),
{
    if has_engine {
        audio_binary_step(data)
    } else {
        let stub_text = process_audio_binary_stub(data);
        match llm.post_process(stub_text.as_str()) {
            Ok(processed) => {
                SessionStep::Reply(
                    server_message_json(&ServerMessage::Transcription { text: processed }),
                )
            },
            Err(_) => {
                SessionStep::Reply(
                    server_message_json(&ServerMessage::Transcription { text: stub_text }),
                )
            },
        }
    }
}

} // verus!
