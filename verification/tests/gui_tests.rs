use qwen_tts_app::config::AppConfig;
use qwen_tts_app::gui::{
    can_generate, cjk_font_candidates, generation_output_path, gui_request,
    log_available_devices, probe_available_devices, GuiForm, LogCollector, SynthesisMode,
};
use qwen_tts_app::platform::TargetOs;
use qwen_tts_app::qwentts_cli::TtsParams;

#[test]
fn log_keeps_lines_in_order() {
    let mut log = LogCollector::new();
    assert!(log.snapshot().is_empty());
    log.push("a".to_string());
    log.push("b".to_string());
    assert_eq!(log.snapshot(), vec!["a".to_string(), "b".to_string()]);
}

#[test]
fn devices_per_platform() {
    assert_eq!(probe_available_devices(TargetOs::Linux, |_: &str| true), vec!["auto", "CPU"]);
    assert_eq!(probe_available_devices(TargetOs::MacOs, |_: &str| true), vec!["auto", "CPU", "Metal"]);
    assert_eq!(
        probe_available_devices(TargetOs::Windows, |d: &str| d == "nvcuda.dll"),
        vec!["auto", "CPU", "CUDA0"]
    );
    assert_eq!(
        probe_available_devices(TargetOs::Windows, |_: &str| true),
        vec!["auto", "CPU", "CUDA0", "Vulkan0"]
    );
}

#[test]
fn startup_log_warns_without_gpu() {
    let mut log = LogCollector::new();
    log_available_devices(&mut log, &vec!["auto".to_string(), "CPU".to_string()]);
    assert_eq!(
        log.snapshot(),
        vec![
            "Available devices: auto, CPU".to_string(),
            "ℹ️ Only CPU detected. For GPU acceleration, install NVIDIA CUDA or Vulkan drivers.".to_string()
        ]
    );
    let mut log = LogCollector::new();
    log_available_devices(&mut log, &vec!["auto".to_string(), "CPU".to_string(), "Metal".to_string()]);
    assert_eq!(log.snapshot(), vec!["Available devices: auto, CPU, Metal".to_string()]);
}

#[test]
fn output_path_is_timestamped_when_default() {
    assert_eq!(generation_output_path("output.wav", 1700000000), "output/voice_1700000000.wav");
    assert_eq!(generation_output_path("", 5), "output/voice_5.wav");
    assert_eq!(generation_output_path("mine.wav", 5), "mine.wav");
}

#[test]
fn request_from_form() {
    let mut form = GuiForm::default();
    assert_eq!(form.language, "English");
    assert_eq!(form.device, "auto");
    form.text = "hi".to_string();
    form.speaker = "vivian".to_string();
    form.instruct = "calm".to_string();
    let req = gui_request(&form, "o.wav".to_string(), TtsParams::default());
    assert_eq!(req.speaker, None);
    assert_eq!(req.instruct, None);
    assert_eq!(req.ggml_backend, None);
    assert_eq!(req.ref_wav, None);
    form.mode = SynthesisMode::CustomVoice;
    form.device = "CUDA0".to_string();
    form.ref_wav_path = "r.wav".to_string();
    let req = gui_request(&form, "o.wav".to_string(), TtsParams::default());
    assert_eq!(req.speaker.as_deref(), Some("vivian"));
    assert_eq!(req.instruct, None);
    assert_eq!(req.ggml_backend.as_deref(), Some("CUDA0"));
    assert_eq!(req.ref_wav.as_deref(), Some("r.wav"));
    assert_eq!(req.talker, "models/qwen-talker-1.7b-base-Q8_0.gguf");
    form.mode = SynthesisMode::VoiceDesign;
    let req = gui_request(&form, "o.wav".to_string(), TtsParams::default());
    assert_eq!(req.instruct.as_deref(), Some("calm"));
}

#[test]
fn config_fills_paths() {
    let mut form = GuiForm::default();
    let mut cfg = AppConfig::default();
    cfg.talker = Some("my-talker.gguf".to_string());
    cfg.language = "Chinese".to_string();
    cfg.device = "CUDA0".to_string();
    form.apply_config(&cfg);
    assert_eq!(form.talker_path, "my-talker.gguf");
    assert_eq!(form.language, "Chinese");
    assert_eq!(form.device, "CUDA0");
    assert_eq!(form.codec_path, "models/qwen-tokenizer-12hz-Q8_0.gguf");
    assert_eq!(form.qwen_tts_bin, "qwentts.cpp/build/qwen-tts");
}

#[test]
fn presets_and_generation_gate() {
    assert_eq!(SynthesisMode::Base.preset_hint(), "Balanced: temp 0.9, top-k 50, top-p 1.0");
    assert_eq!(SynthesisMode::VoiceDesign.preset_hint(), "Design: temp 1.0, top-k 60, top-p 1.0");
    assert!(can_generate("x", false));
    assert!(!can_generate("", false));
    assert!(!can_generate("x", true));
}

#[test]
fn font_candidates() {
    assert_eq!(cjk_font_candidates(TargetOs::Windows)[0], "C:\\Windows\\Fonts\\msyh.ttc");
    assert_eq!(cjk_font_candidates(TargetOs::MacOs).len(), 3);
    assert_eq!(cjk_font_candidates(TargetOs::Linux).len(), 4);
    assert!(cjk_font_candidates(TargetOs::Other).is_empty());
}
