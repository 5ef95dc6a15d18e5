use qwen_tts_app::config::{
    default_device, default_lang, default_output_dir, default_repo, AppConfig,
};

#[test]
fn test_default_values() {
    let cfg = AppConfig::default();
    assert_eq!(cfg.language, "English");
    assert_eq!(cfg.device, "auto");
    assert_eq!(cfg.output_dir, ".");
}

#[test]
fn default_config_has_no_paths_and_default_repo() {
    let cfg = AppConfig::default();
    assert!(cfg.qwen_tts_bin.is_none());
    assert!(cfg.talker.is_none());
    assert!(cfg.codec.is_none());
    assert_eq!(cfg.hf_repo, "Serveurperso/Qwen3-TTS-GGUF");
}

#[test]
fn default_field_functions() {
    assert_eq!(default_lang(), "English");
    assert_eq!(default_device(), "auto");
    assert_eq!(default_output_dir(), ".");
    assert_eq!(default_repo(), "Serveurperso/Qwen3-TTS-GGUF");
}

#[test]
fn fields_left_out_take_defaults() {
    let cfg = AppConfig::from_fields(None, None, None, None, None, None, None);
    assert!(cfg.qwen_tts_bin.is_none());
    assert_eq!(cfg.language, "English");
    assert_eq!(cfg.device, "auto");
    assert_eq!(cfg.output_dir, ".");
    assert_eq!(cfg.hf_repo, "Serveurperso/Qwen3-TTS-GGUF");
}

#[test]
fn fields_given_are_kept() {
    let cfg = AppConfig::from_fields(
        Some("my-qwen-tts.exe".to_string()),
        Some("my-talker.gguf".to_string()),
        Some("my-codec.gguf".to_string()),
        Some("Chinese".to_string()),
        Some("CUDA0".to_string()),
        None,
        None,
    );
    assert_eq!(cfg.qwen_tts_bin.as_deref(), Some("my-qwen-tts.exe"));
    assert_eq!(cfg.talker.as_deref(), Some("my-talker.gguf"));
    assert_eq!(cfg.codec.as_deref(), Some("my-codec.gguf"));
    assert_eq!(cfg.language, "Chinese");
    assert_eq!(cfg.device, "CUDA0");
    assert_eq!(cfg.output_dir, ".");
}
