//! The generative-language-model text-correction capability.
//!
//! The generative backend is a stub: no model is wired in, so the
//! capability never becomes enabled and its post-processing hands the text
//! back unchanged. The chain's fallback-to-identity behaviour covers this
//! without special cases.

use vstd::prelude::*;

verus! {

/// Errors of the generative-language-model capability.
#[derive(Debug)]
pub enum LlmError {
    /// No model backend is available.
    ModelNotInitialized,
    /// The model could not be loaded.
    LoadError(String),
    /// Text generation failed.
    GenerationError(String),
    /// Tokenization failed.
    TokenizationError(String),
}

impl LlmError {
    /// A human-readable description of the error.
    pub fn message(&self) -> (r: String)
        ensures
            match self {
                LlmError::ModelNotInitialized => r@
                    == "LLM модель не инициализирована. Постобработка недоступна."@,
                LlmError::LoadError(m) => r@ == "Ошибка загрузки модели: "@ + m@,
                LlmError::GenerationError(m) => r@ == "Ошибка генерации: "@ + m@,
                LlmError::TokenizationError(m) => r@ == "Ошибка токенизации: "@ + m@,
            },
    {
        match self {
            LlmError::ModelNotInitialized => {
                "LLM модель не инициализирована. Постобработка недоступна.".to_owned()
            },
            LlmError::LoadError(m) => {
                let mut s = "Ошибка загрузки модели: ".to_owned();
                s.append(m.as_str());
                s
            },
            LlmError::GenerationError(m) => {
                let mut s = "Ошибка генерации: ".to_owned();
                s.append(m.as_str());
                s
            },
            LlmError::TokenizationError(m) => {
                let mut s = "Ошибка токенизации: ".to_owned();
                s.append(m.as_str());
                s
            },
        }
    }
}

/// The generative-language-model capability: only its enablement state,
/// since no backend is wired in.
pub struct LlmModel {
    enabled: bool,
}

impl LlmModel {
    /// Whether post-processing through this capability is enabled, for
    /// contracts.
    pub closed spec fn spec_enabled(&self) -> bool {
        self.enabled
    }

    /// Creates the capability. The backend is a stub, so whatever path and
    /// enablement are asked for, the capability comes up disabled; asking
    /// for it is not an error.
    pub fn new(model_path: Option<&str>, enabled: bool) -> (r: Result<Self, LlmError>)
        ensures
            r matches Ok(m) && !m.spec_enabled(),
    {
        let _ = model_path;
        let _ = enabled;
        Ok(LlmModel { enabled: false })
    }

    /// Post-processes a transcript. With the capability disabled (or the
    /// backend stubbed) the text comes back unchanged; this never fails.
    pub fn post_process(&self, text: &str) -> (r: Result<String, LlmError>)
        ensures
            r matches Ok(t) && t@ == text@,
    {
        Ok(text.to_owned())
    }

    /// Whether post-processing is enabled.
    pub fn is_enabled(&self) -> (r: bool)
        ensures
            r == self.spec_enabled(),
    {
        self.enabled
    }
}

impl Default for LlmModel {
    /// The capability as the service starts without one: disabled.
    fn default() -> (r: Self)
        ensures
            !r.spec_enabled(),
    {
        LlmModel { enabled: false }
    }
}

} // verus!
