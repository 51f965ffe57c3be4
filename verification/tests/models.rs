use llmserver_rs::huggingface::{
    build_model_config, classify_model_id, config_file_name, determine_model_type,
    model_short_name, str_contains, ModelType,
};

#[test]
fn model_type_llm_from_name() {
    assert_eq!(
        determine_model_type("rockchip/My-LLM-7B"),
        Some(ModelType::LLM)
    );
}

#[test]
fn model_type_gpt_counts_as_llm() {
    assert_eq!(determine_model_type("acme/tiny-gpt2"), Some(ModelType::LLM));
}

#[test]
fn model_type_asr_from_name() {
    assert_eq!(determine_model_type("acme/whisper-asr"), Some(ModelType::ASR));
}

#[test]
fn model_type_voice_counts_as_asr() {
    assert_eq!(determine_model_type("acme/VoiceModel"), Some(ModelType::ASR));
}

#[test]
fn model_type_defaults_to_llm() {
    assert_eq!(determine_model_type("acme/bert-base"), Some(ModelType::LLM));
}

#[test]
fn model_type_llm_takes_precedence() {
    assert_eq!(determine_model_type("acme/llm-asr"), Some(ModelType::LLM));
}

#[test]
fn classify_works_on_lowered_names() {
    assert_eq!(classify_model_id("acme/some-llm"), ModelType::LLM);
    assert_eq!(classify_model_id("acme/voice-thing"), ModelType::ASR);
}

#[test]
fn contains_finds_substrings() {
    assert!(str_contains("hello-llm-world", "llm"));
    assert!(!str_contains("hello", "xyz"));
    assert!(str_contains("anything", ""));
    assert!(!str_contains("ab", "abc"));
}

#[test]
fn short_name_of_valid_locator() {
    assert_eq!(model_short_name("owner/repo"), Some("repo".to_string()));
}

#[test]
fn short_name_rejects_extra_slash() {
    assert_eq!(model_short_name("a/b/c"), None);
}

#[test]
fn short_name_rejects_missing_slash() {
    assert_eq!(model_short_name("norepo"), None);
}

#[test]
fn config_file_name_is_lowered_and_underscored() {
    assert_eq!(
        config_file_name("My-Model"),
        "assets/config/my_model.json".to_string()
    );
}

#[test]
fn model_config_for_llm_disables_think() {
    let c = build_model_config("owner/My-LLM", ModelType::LLM).unwrap();
    assert_eq!(c.modle_path, "owner/My-LLM".to_string());
    assert_eq!(c.modle_name, "My-LLM".to_string());
    assert_eq!(c.think, Some(false));
}

#[test]
fn model_config_for_asr_leaves_think_out() {
    let c = build_model_config("owner/asr-model", ModelType::ASR).unwrap();
    assert_eq!(c.think, None);
}

#[test]
fn model_config_rejects_bad_locator() {
    assert!(build_model_config("bad-locator", ModelType::LLM).is_none());
}
