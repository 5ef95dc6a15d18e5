use qwen_tts_app::commands::{
    default_qwen_tts_bin, device_from_config, is_default_model_path, models_dir, plan_synth,
    setup_script_bash, setup_script_powershell, BuildTarget, Device, SynthOptions,
};
use qwen_tts_app::config::AppConfig;
use qwen_tts_app::platform::TargetOs;
use qwen_tts_app::qwentts_cli::TtsParams;
use std::path::Path;

fn options(text: &str) -> SynthOptions {
    SynthOptions {
        text: text.to_string(),
        out: None,
        talker: None,
        codec: None,
        qwen_tts_bin: None,
        lang: None,
        speaker: None,
        instruct: None,
        ref_wav: None,
        ref_text: None,
        device: None,
        n_gpu_layers: -1,
        tts_params: TtsParams::default(),
    }
}

#[test]
fn test_is_default_model_path_matches() {
    assert!(is_default_model_path("models/qwen-talker-1.7b-base-Q8_0.gguf"));
    assert!(is_default_model_path("models/qwen-tokenizer-12hz-Q8_0.gguf"));
}

#[test]
fn test_is_default_model_path_no_match() {
    assert!(!is_default_model_path("models/custom-file.gguf"));
    assert!(!is_default_model_path("/absolute/path/model.gguf"));
    assert!(!is_default_model_path("other-dir/qwen-talker.gguf"));
}

#[test]
fn test_default_paths() {
    let p = Path::new("qwentts.cpp/build/qwen-tts");
    assert!(p.ends_with("qwen-tts"));
    let bin = default_qwen_tts_bin(TargetOs::Linux, |_: &str| false);
    assert_eq!(bin, "qwentts.cpp/build/qwen-tts");
    assert!(Path::new(&bin).ends_with("qwen-tts"));
}

#[test]
fn windows_binary_prefers_existing_release_build() {
    let release = default_qwen_tts_bin(TargetOs::Windows, |p: &str| p.contains("Release"));
    assert_eq!(release, "qwentts.cpp/build/Release/qwen-tts.exe");
    let plain = default_qwen_tts_bin(TargetOs::Windows, |p: &str| !p.contains("Release"));
    assert_eq!(plain, "qwentts.cpp/build/qwen-tts.exe");
    let neither = default_qwen_tts_bin(TargetOs::Windows, |_: &str| false);
    assert_eq!(neither, "qwentts.cpp/build/Release/qwen-tts.exe");
}

#[test]
fn device_backend_names() {
    assert_eq!(Device::Auto.backend_str(), None);
    assert_eq!(Device::Cpu.backend_str(), Some("CPU"));
    assert_eq!(Device::Cuda0.backend_str(), Some("CUDA0"));
    assert_eq!(Device::Vulkan0.backend_str(), Some("Vulkan0"));
    assert_eq!(Device::Metal.backend_str(), Some("Metal"));
}

#[test]
fn configured_device_names_ignore_case() {
    assert_eq!(device_from_config("CUDA0"), Device::Cuda0);
    assert_eq!(device_from_config("cpu"), Device::Cpu);
    assert_eq!(device_from_config("Vulkan0"), Device::Vulkan0);
    assert_eq!(device_from_config("METAL"), Device::Metal);
    assert_eq!(device_from_config("auto"), Device::Auto);
    assert_eq!(device_from_config("tpu"), Device::Auto);
    for d in [Device::Cpu, Device::Cuda0, Device::Vulkan0, Device::Metal] {
        assert_eq!(device_from_config(d.backend_str().unwrap()), d);
    }
}

#[test]
fn synth_uses_config_then_defaults() {
    let mut cfg = AppConfig::default();
    cfg.language = "Chinese".to_string();
    cfg.device = "CUDA0".to_string();
    cfg.output_dir = "out".to_string();
    let plan = plan_synth(options("hi"), &cfg, TargetOs::Linux, |_: &str| false);
    assert_eq!(plan.request.lang, "Chinese");
    assert_eq!(plan.request.out, "out");
    assert_eq!(plan.request.ggml_backend.as_deref(), Some("CUDA0"));
    assert_eq!(plan.request.talker, "models/qwen-talker-1.7b-base-Q8_0.gguf");
    assert_eq!(plan.request.codec, "models/qwen-tokenizer-12hz-Q8_0.gguf");
    assert!(plan.check_default_models);
    assert!(!plan.process_only);
    assert_eq!(plan.fallback_bin, "qwentts.cpp/build/qwen-tts");
}

#[test]
fn synth_command_line_wins() {
    let mut cfg = AppConfig::default();
    cfg.language = "Chinese".to_string();
    cfg.talker = Some("cfg-talker.gguf".to_string());
    cfg.qwen_tts_bin = Some("cfg-bin".to_string());
    let mut opts = options("hi");
    opts.lang = Some("English".to_string());
    opts.talker = Some("cli-talker.gguf".to_string());
    opts.codec = Some("cli-codec.gguf".to_string());
    opts.device = Some(Device::Auto);
    opts.ref_wav = Some("ref.wav".to_string());
    let plan = plan_synth(opts, &cfg, TargetOs::Linux, |_: &str| false);
    assert_eq!(plan.request.lang, "English");
    assert_eq!(plan.request.talker, "cli-talker.gguf");
    assert_eq!(plan.request.ggml_backend, None);
    assert!(!plan.check_default_models);
    assert!(plan.process_only);
    assert_eq!(plan.fallback_bin, "cfg-bin");
}

#[test]
fn setup_scripts_name_the_target() {
    let bash = setup_script_bash(BuildTarget::Cuda);
    assert!(bash.starts_with("#!/usr/bin/env bash\nset -euo pipefail\n"));
    assert!(bash.contains(
        "echo \"=== Step 2: Build qwentts.cpp (cuda) ===\"\nif [ -f \"./buildcuda.sh\" ]; then\n    ./buildcuda.sh\nelse\n    echo \"No build script found; using CMake directly...\"\n    mkdir -p build\n    cd build\n    cmake .. -DQWEN_SHARED=ON -DGGML_CUDA=ON\n    cmake --build . --config Release\n    cd ..\nfi\ncd ..\n"
    ));
    assert!(bash.ends_with("for more options.\"\n"));
    let ps = setup_script_powershell(BuildTarget::Vulkan);
    assert!(ps.contains("Build qwentts.cpp (vulkan)"));
    assert!(ps.contains("if (Test-Path \"qwentts.cpp/./buildvulkan.bat\") {\n    & \"qwentts.cpp\\./buildvulkan.bat\"\n}"));
    assert!(ps.contains("$ggml_flags = switch (\"vulkan\") {"));
    assert!(!ps.contains("{{"));
    assert_eq!(BuildTarget::All.name(), "all");
}

#[test]
fn models_dir_is_the_talker_directory_or_models() {
    assert_eq!(models_dir(Some("custom/dir")), "custom/dir");
    assert_eq!(models_dir(Some("")), "models");
    assert_eq!(models_dir(None), "models");
    let parent = std::path::Path::new("talker.gguf").parent().map(|p| p.to_str().unwrap());
    assert_eq!(models_dir(parent), "models");
}

#[test]
fn bash_script_carries_the_ggml_flags() {
    assert!(setup_script_bash(BuildTarget::All).contains("-DGGML_CUDA=ON -DGGML_VULKAN=ON -DGGML_METAL=ON"));
    assert!(setup_script_bash(BuildTarget::Metal).contains("cmake .. -DQWEN_SHARED=ON -DGGML_METAL=ON\n"));
    assert!(setup_script_bash(BuildTarget::Vulkan).contains("cmake .. -DQWEN_SHARED=ON -DGGML_VULKAN=ON\n"));
    let cpu = setup_script_bash(BuildTarget::Cpu);
    assert!(cpu.contains("cmake .. -DQWEN_SHARED=ON\n"));
    assert!(!cpu.contains("-DGGML_"));
}
