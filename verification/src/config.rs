//! Inference configuration for the speech-recognition engine, and the model
//! file locations the service is provisioned with.

use vstd::prelude::*;

verus! {

/// Relies on `std::path::Path::exists`: whether a file is on disk at this
/// moment. The result depends on the machine's disk, so nothing is
/// promised of it.
#[verifier::external_body]
pub(crate) fn path_exists(path: &str) -> bool {
    std::path::Path::new(path).exists()
}

/// Clamp an `i32` into the inclusive range `[lo, hi]`.
pub open spec fn spec_clamp_i32(x: int, lo: int, hi: int) -> int {
    if x < lo {
        lo
    } else if x > hi {
        hi
    } else {
        x
    }
}

fn clamp_i32(x: i32, lo: i32, hi: i32) -> (r: i32)
    requires
        lo <= hi,
    ensures
        r == spec_clamp_i32(x as int, lo as int, hi as int),
{
    if x < lo {
        lo
    } else if x > hi {
        hi
    } else {
        x
    }
}

/// Inference parameters for the speech-recognition engine.
#[derive(Debug, Clone, Copy)]
pub struct WhisperConfig {
    /// Number of inference threads; always within [1, 16].
    pub n_threads: i32,
    /// Beam width for beam search; always within [1, 10].
    pub beam_size: i32,
    /// Decoding strategy: beam search when true, greedy otherwise.
    pub use_beam_search: bool,
}

impl WhisperConfig {
    /// Builds a configuration from caller-chosen parameters, clamping the
    /// thread count into [1, 16] and the beam width into [1, 10].
    pub fn new(n_threads: i32, beam_size: i32, use_beam_search: bool) -> (r: Self)
        ensures
            r.n_threads == spec_clamp_i32(n_threads as int, 1, 16),
            r.beam_size == spec_clamp_i32(beam_size as int, 1, 10),
            r.use_beam_search == use_beam_search,
    {
        Self {
            n_threads: clamp_i32(n_threads, 1, 16),
            beam_size: clamp_i32(beam_size, 1, 10),
            use_beam_search,
        }
    }

    /// The balanced default: half the available threads, clamped into
    /// [4, 12], beam width 5, greedy decoding. The caller supplies the
    /// number of threads the machine offers.
    pub fn recommended(available_threads: i32) -> (r: Self)
        ensures
            r.n_threads == spec_clamp_i32(available_threads as int / 2, 4, 12),
            r.beam_size == 5,
            !r.use_beam_search,
    {
        Self {
            n_threads: clamp_i32(available_threads / 2, 4, 12),
            beam_size: 5,
            use_beam_search: false,
        }
    }

    /// A configuration tuned for speed: half the available threads clamped
    /// into [2, 8], beam width 1, greedy decoding.
    pub fn fast(available_threads: i32) -> (r: Self)
        ensures
            r.n_threads == spec_clamp_i32(available_threads as int / 2, 2, 8),
            r.beam_size == 1,
            !r.use_beam_search,
    {
        Self {
            n_threads: clamp_i32(available_threads / 2, 2, 8),
            beam_size: 1,
            use_beam_search: false,
        }
    }

    /// A configuration tuned for accuracy: all available threads clamped
    /// into [4, 12], beam width 10, beam search enabled.
    pub fn high_quality(available_threads: i32) -> (r: Self)
        ensures
            r.n_threads == spec_clamp_i32(available_threads as int, 4, 12),
            r.beam_size == 10,
            r.use_beam_search,
    {
        Self {
            n_threads: clamp_i32(available_threads, 4, 12),
            beam_size: 10,
            use_beam_search: true,
        }
    }
}

/// Where the model files live.
#[derive(Debug, Clone)]
pub struct ModelPaths {
    /// The speech-recognition model file.
    pub whisper_model: String,
    /// The generative-corrector model file, where one is configured.
    pub llm_model: Option<String>,
}

/// The report given when the speech-recognition model file is absent: the
/// path looked at, and how to provision the file.
pub open spec fn spec_missing_whisper_message(path: Seq<char>) -> Seq<char> {
    "Whisper модель не найдена: "@ + path
        + "\n\nДля работы необходимо:\n1. Создать папку 'models' в корне проекта (если её нет)\n2. Скачать модель:\n   - ggml-large-v3-q5_0.bin (рекомендуется, ~1GB)\n   - Или ggml-large-v3.bin (полная версия, ~3GB)\n\nСпособы скачивания:\n- Запустите: powershell -ExecutionPolicy Bypass -File scripts/download_models.ps1\n- Или вручную с HuggingFace:\n  https://huggingface.co/ggerganov/whisper.cpp/resolve/main/ggml-large-v3-q5_0.bin"@
}

impl Default for ModelPaths {
    /// The stock layout: the quantized large model, and a small generative
    /// model beside it.
    fn default() -> (r: Self)
        ensures
            r.whisper_model@ == "models/ggml-large-v3-q5_0.bin"@,
            r.llm_model matches Some(p) && p@ == "models/qwen1_5-0_5b-chat-q4_k_m.gguf"@,
    {
        ModelPaths {
            whisper_model: "models/ggml-large-v3-q5_0.bin".to_owned(),
            llm_model: Some("models/qwen1_5-0_5b-chat-q4_k_m.gguf".to_owned()),
        }
    }
}

impl ModelPaths {
    /// A layout with caller-chosen paths.
    pub fn new(whisper_model: String, llm_model: Option<String>) -> (r: Self)
        ensures
            r.whisper_model == whisper_model,
            r.llm_model == llm_model,
    {
        ModelPaths { whisper_model, llm_model }
    }

    /// The decision behind the startup check, from the fact whether the
    /// speech-recognition model file is present: without it the service
    /// must not start; an absent generative model only disables that
    /// corrector and is no error.
    pub fn models_check_outcome(&self, whisper_present: bool) -> (r: Result<(), String>)
        ensures
            r is Ok <==> whisper_present,
            r matches Err(m) ==> m@ == spec_missing_whisper_message(self.whisper_model@),
    {
        if whisper_present {
            Ok(())
        } else {
            let mut m = "Whisper модель не найдена: ".to_owned();
            m.append(self.whisper_model.as_str());
            m.append(
                "\n\nДля работы необходимо:\n1. Создать папку 'models' в корне проекта (если её нет)\n2. Скачать модель:\n   - ggml-large-v3-q5_0.bin (рекомендуется, ~1GB)\n   - Или ggml-large-v3.bin (полная версия, ~3GB)\n\nСпособы скачивания:\n- Запустите: powershell -ExecutionPolicy Bypass -File scripts/download_models.ps1\n- Или вручную с HuggingFace:\n  https://huggingface.co/ggerganov/whisper.cpp/resolve/main/ggml-large-v3-q5_0.bin",
            );
            Err(m)
        }
    }

    /// Looks for the model files on disk (an outside concern; nothing is
    /// promised of what is found) and decides whether the service may
    /// start. An error always carries the missing-model report.
    pub fn check_models_exist(&self) -> (r: Result<(), String>)
        ensures
            r matches Err(m) ==> m@ == spec_missing_whisper_message(self.whisper_model@),
    {
        let present = path_exists(self.whisper_model.as_str());
        self.models_check_outcome(present)
    }
}

} // verus!
