use alfavoice::config::{ModelPaths, WhisperConfig};
use alfavoice::llm::LlmModel;
use alfavoice::runtime::{memory_recommendation, rayon_thread_count};
use alfavoice::session::finish_transcription;
use alfavoice::whisper::{join_segments, use_gpu_for_device, WhisperModel};

#[test]
fn beam_width_is_clamped() {
    // width 0 and 50 are clamped into [1, 10] before reaching the engine
    assert_eq!(WhisperConfig::new(4, 0, true).beam_size, 1);
    assert_eq!(WhisperConfig::new(4, 50, true).beam_size, 10);
    assert_eq!(WhisperConfig::new(4, 5, false).beam_size, 5);
}

#[test]
fn thread_count_is_clamped() {
    assert_eq!(WhisperConfig::new(0, 5, false).n_threads, 1);
    assert_eq!(WhisperConfig::new(99, 5, false).n_threads, 16);
    assert_eq!(WhisperConfig::recommended(16).n_threads, 8);
    assert_eq!(WhisperConfig::fast(32).n_threads, 8);
    assert_eq!(WhisperConfig::high_quality(2).n_threads, 4);
    assert!(WhisperConfig::high_quality(8).use_beam_search);
    assert_eq!(WhisperConfig::fast(8).beam_size, 1);
}

#[test]
fn gateway_serializes_and_counts_calls() {
    let mut gw = WhisperModel::new(WhisperConfig::new(4, 5, false));
    assert!(!gw.is_busy());
    assert_eq!(gw.completed_calls(), 0);

    let audio: Vec<i16> = vec![16384, -16384];
    let req = gw.inference_request(&audio);
    assert!(gw.is_busy());
    assert_eq!(req.samples, vec![16384i32, -16384]);
    assert_eq!(req.params.n_threads, 4);
    assert_eq!(req.params.beam_size, 5);
    assert!(!req.params.use_beam_search);
    assert_eq!(req.params.language, "ru");
    assert!(!req.params.translate);

    let out = gw
        .inference_response(Ok(vec!["  привет ".to_string(), "мир  ".to_string()]))
        .unwrap();
    assert_eq!(out, "привет мир");
    assert!(!gw.is_busy());
    assert_eq!(gw.completed_calls(), 1);

    // a failure is per-request: the gateway stays usable
    let _ = gw.inference_request(&audio);
    let err = gw
        .inference_response(Err("сбой движка".to_string()))
        .unwrap_err();
    assert_eq!(err, "Не удалось выполнить транскрипцию: сбой движка");
    assert_eq!(gw.completed_calls(), 2);
    assert!(!gw.is_busy());
}

#[test]
fn segments_join_with_single_spaces() {
    assert_eq!(join_segments(&vec![]), "");
    assert_eq!(join_segments(&vec!["  a  ".to_string(), "b".to_string()]), "a b");
    // an empty transcript is a valid, non-error result
    assert_eq!(join_segments(&vec!["   ".to_string()]), "");
}

#[test]
fn engine_failure_becomes_a_reply() {
    let llm = LlmModel::default();
    let reply = finish_transcription(Err("обрыв".to_string()), None, &llm);
    assert_eq!(
        reply,
        "{\"type\":\"transcription\",\"text\":\"Ошибка транскрипции: обрыв\"}"
    );
    let reply = finish_transcription(Ok("сырой текст".to_string()), None, &llm);
    assert_eq!(
        reply,
        "{\"type\":\"transcription\",\"text\":\"сырой текст\"}"
    );
}

#[test]
fn load_reports_a_missing_model() {
    match WhisperModel::load("models/no-such-file.bin", WhisperConfig::new(4, 5, false)) {
        Err(err) => assert!(err.starts_with(
            "Модель Whisper не найдена по пути: models/no-such-file.bin"
        )),
        Ok(_) => panic!("expected a missing-model report"),
    }
}

#[test]
fn load_outcome_decides_on_presence() {
    let cfg = WhisperConfig::new(4, 5, false);
    match WhisperModel::load_outcome("models/w.bin", true, cfg) {
        Ok(gw) => {
            assert!(!gw.is_busy());
            assert_eq!(gw.completed_calls(), 0);
        }
        Err(_) => panic!("a present model file must load"),
    }
    match WhisperModel::load_outcome("models/w.bin", false, cfg) {
        Err(err) => {
            assert!(err.starts_with("Модель Whisper не найдена по пути: models/w.bin"));
            assert!(err.contains("https://huggingface.co/ggerganov/whisper.cpp"));
        }
        Ok(_) => panic!("an absent model file must not load"),
    }
}

#[test]
fn device_selection() {
    assert!(use_gpu_for_device("gpu"));
    assert!(use_gpu_for_device("cuda"));
    assert!(!use_gpu_for_device("cpu"));
    assert!(!use_gpu_for_device("quantum"));
}

#[test]
fn model_check_needs_the_whisper_model() {
    let paths = ModelPaths::new("models/w.bin".to_string(), None);
    assert!(paths.models_check_outcome(true).is_ok());
    let err = paths.models_check_outcome(false).unwrap_err();
    assert!(err.starts_with("Whisper модель не найдена: models/w.bin"));

    let d = ModelPaths::default();
    assert_eq!(d.whisper_model, "models/ggml-large-v3-q5_0.bin");
    assert_eq!(d.llm_model.as_deref(), Some("models/qwen1_5-0_5b-chat-q4_k_m.gguf"));
}

#[test]
fn worker_pool_sizing() {
    assert_eq!(rayon_thread_count(3), 2);
    assert_eq!(rayon_thread_count(12), 4);
    assert_eq!(rayon_thread_count(48), 8);
}

#[test]
fn memory_tiers() {
    assert!(memory_recommendation(2048).contains("small или base"));
    assert!(memory_recommendation(6000).contains("medium"));
    assert!(memory_recommendation(16384).contains("large-v3"));
}

#[test]
fn audio_devices_listing() {
    let devices = alfavoice::client::get_audio_devices().unwrap();
    assert_eq!(devices.len(), 1);
    assert_eq!(devices[0].id, "default");
    assert_eq!(devices[0].name, "Микрофон по умолчанию");
    assert!(devices[0].is_default);
}
