use alfavoice::bert::{BertConfig, BertError, BertModel};
use alfavoice::chain::{refine, Stage};
use alfavoice::llm::{LlmError, LlmModel};

#[test]
fn test_llm_model_disabled() {
    let model = LlmModel::new(None, false).unwrap();
    assert!(!model.is_enabled());
}

#[test]
fn test_llm_model_enabled_but_no_path() {
    let model = LlmModel::new(None, true).unwrap();
    assert!(!model.is_enabled());
}

#[test]
fn test_post_process_disabled() {
    let model = LlmModel::new(None, false).unwrap();
    let text = "тестовый текст";
    let result = model.post_process(text).unwrap();
    assert_eq!(result, text);
}

#[test]
fn test_post_process_empty_text() {
    let model = LlmModel::new(None, false).unwrap();
    let text = "";
    let result = model.post_process(text).unwrap();
    assert_eq!(result, text);
}

#[test]
fn test_basic_postprocessing() {
    let model = BertModel::with_default_config();

    let input = "привет   мир   это   тест";
    let output = model.basic_postprocessing(input);
    assert_eq!(output, "Привет мир это тест.");

    let input = "привет мир. это тест";
    let output = model.basic_postprocessing(input);
    assert_eq!(output, "Привет мир. Это тест.");

    let input = "";
    let output = model.basic_postprocessing(input);
    assert_eq!(output, ".");
}

#[test]
fn test_process_text_not_initialized() {
    let model = BertModel::with_default_config();
    let result = model.process_text("тест");
    assert!(result.is_err());
    assert!(matches!(result, Err(BertError::NotInitialized)));
}

#[test]
fn test_process_text_empty_input() {
    let mut model = BertModel::with_default_config();
    model.initialize(true).unwrap();

    let result = model.process_text("");
    assert!(result.is_err());
    assert!(matches!(result, Err(BertError::InvalidInput(_))));
}

#[test]
fn test_bert_config_default() {
    let config = BertConfig::default();
    assert_eq!(config.model_name, "DeepPavlov/rubert-base-cased");
    assert!(config.use_gpu);
    assert_eq!(config.max_length, 512);
    assert!(config.local_model_path.is_none());
}

#[test]
fn process_text_normalizes() {
    let mut model = BertModel::with_default_config();
    model.initialize(true).unwrap();
    let result = model.process_text("привет мир. это тест").unwrap();
    assert_eq!(result.text, "Привет мир. Это тест.");
    assert!(!result.used_gpu);
}

#[test]
fn initialize_without_backend_fails() {
    let mut model = BertModel::with_default_config();
    let r = model.initialize(false);
    assert!(matches!(r, Err(BertError::ConfigError(_))));
    assert!(!model.is_ready());
}

#[test]
fn chain_all_capabilities_disabled_is_identity() {
    // no corrector is present or enabled: the text comes back unchanged,
    // tagged as unrefined
    let llm = LlmModel::new(None, false).unwrap();
    let out = refine(None, &llm, "как есть");
    assert_eq!(out.stage_used, Stage::Identity);
    assert_eq!(out.text, "как есть");
    assert_eq!(out.stage_used.name(), "none");
}

#[test]
fn chain_unready_capability_is_skipped() {
    let llm = LlmModel::default();
    let bert = BertModel::with_default_config();
    // present but not initialized: skipped, never attempted
    let out = refine(Some(&bert), &llm, "текст");
    assert_eq!(out.stage_used, Stage::Identity);
    assert_eq!(out.text, "текст");
}

#[test]
fn chain_ready_capability_wins() {
    let llm = LlmModel::default();
    let mut bert = BertModel::with_default_config();
    bert.initialize(true).unwrap();
    let out = refine(Some(&bert), &llm, "привет   мир");
    assert_eq!(out.stage_used, Stage::Bert);
    assert_eq!(out.text, "Привет мир.");
    assert_eq!(out.stage_used.name(), "bert");
}

#[test]
fn chain_blank_input_falls_through() {
    // the masked-language-model corrector rejects blank text; the chain
    // falls through to identity
    let llm = LlmModel::default();
    let mut bert = BertModel::with_default_config();
    bert.initialize(true).unwrap();
    let out = refine(Some(&bert), &llm, "   ");
    assert_eq!(out.stage_used, Stage::Identity);
    assert_eq!(out.text, "   ");
}

#[test]
fn bert_error_messages() {
    assert_eq!(
        BertError::NotInitialized.message(),
        "Модель не инициализирована"
    );
    assert_eq!(
        BertError::InvalidInput("Пустой текст".to_string()).message(),
        "Некорректный входной текст: Пустой текст"
    );
}

#[test]
fn llm_error_messages() {
    assert_eq!(
        LlmError::LoadError("нет файла".to_string()).message(),
        "Ошибка загрузки модели: нет файла"
    );
}
