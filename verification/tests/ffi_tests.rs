use qwen_tts_app::platform::TargetOs;
use qwen_tts_app::qwen_ffi::{
    call_params, check_abi_version, check_init_texts, check_tts_texts, encode_wav_i16,
    ffi_step, lib_name, library_not_found, FfiAction, FfiEvent, FfiRunError, FfiStage, QtStatus,
    QwenFfiError, REQUIRED_ABI_VERSION,
};
use qwen_tts_app::qwentts_cli::{QwenTtsRequest, SynthesisOutput, TtsParams};

fn to_i16(samples: &[f32]) -> Vec<i16> {
    samples.iter().map(|s| (s.clamp(-1.0, 1.0) * 32767.0) as i16).collect()
}

#[test]
fn test_encode_wav_f32() {
    let samples = vec![0.0, 0.5, -0.5, 1.0, -1.0];
    let wav = encode_wav_i16(&to_i16(&samples), 24000);
    // Minimal checks: has RIFF and WAVE markers, data chunk
    assert!(wav.starts_with(b"RIFF"));
    assert!(wav.windows(4).any(|w| w == b"WAVE"));
    assert!(wav.windows(4).any(|w| w == b"data"));
    // 5 samples * 2 bytes = 10 bytes data
    assert_eq!(wav.len(), 44 + 10);
}

#[test]
fn wav_header_fields() {
    let wav = encode_wav_i16(&vec![1, -1, 16383], 24000);
    assert_eq!(&wav[0..4], b"RIFF");
    assert_eq!(u32::from_le_bytes([wav[4], wav[5], wav[6], wav[7]]), 36 + 6);
    assert_eq!(&wav[8..16], b"WAVEfmt ");
    assert_eq!(u32::from_le_bytes([wav[16], wav[17], wav[18], wav[19]]), 16);
    assert_eq!(u16::from_le_bytes([wav[20], wav[21]]), 1);
    assert_eq!(u16::from_le_bytes([wav[22], wav[23]]), 1);
    assert_eq!(u32::from_le_bytes([wav[24], wav[25], wav[26], wav[27]]), 24000);
    assert_eq!(u32::from_le_bytes([wav[28], wav[29], wav[30], wav[31]]), 48000);
    assert_eq!(u16::from_le_bytes([wav[32], wav[33]]), 2);
    assert_eq!(u16::from_le_bytes([wav[34], wav[35]]), 16);
    assert_eq!(&wav[36..40], b"data");
    assert_eq!(u32::from_le_bytes([wav[40], wav[41], wav[42], wav[43]]), 6);
    assert_eq!(&wav[44..], &[1, 0, 0xff, 0xff, 0xff, 0x3f]);
}

#[test]
fn test_lib_name() {
    for os in [TargetOs::Windows, TargetOs::MacOs, TargetOs::Linux, TargetOs::Other] {
        let name = lib_name(os);
        assert!(name.ends_with(".dll") || name.ends_with(".so") || name.ends_with(".dylib"));
    }
    assert_eq!(lib_name(TargetOs::Windows), "qwen.dll");
    assert_eq!(lib_name(TargetOs::MacOs), "libqwen.dylib");
    assert_eq!(lib_name(TargetOs::Linux), "libqwen.so");
}

#[test]
fn ffi_error_messages() {
    assert_eq!(QwenFfiError::LibraryNotFound("x".into()).message(), "qwen library not found: x");
    assert_eq!(
        QwenFfiError::MissingSymbol("qt_init".into()).message(),
        "qwen library missing symbol: qt_init (version mismatch?)"
    );
    assert_eq!(
        QwenFfiError::SynthesisFailed(QtStatus::Oom, "no memory".into()).message(),
        "qwen synthesis failed (code=Oom): no memory"
    );
    assert_eq!(QwenFfiError::InvalidParams("bad".into()).message(), "invalid parameters: bad");
    assert_eq!(QtStatus::Success.name(), "Ok");
}

#[test]
fn abi_check() {
    assert_eq!(REQUIRED_ABI_VERSION, 3);
    assert!(check_abi_version(3).is_ok());
    assert!(check_abi_version(4).is_ok());
    match check_abi_version(2) {
        Err(e @ QwenFfiError::SynthesisFailed(QtStatus::InvalidParams, _)) => assert_eq!(
            e.message(),
            "qwen synthesis failed (code=InvalidParams): qwen.dll ABI v2 is too old; need v3. Rebuild qwentts.cpp with the latest source."
        ),
        other => panic!("unexpected {other:?}"),
    }
    match check_abi_version(-1) {
        Err(QwenFfiError::SynthesisFailed(_, m)) => assert!(m.starts_with("qwen.dll ABI v-1 is too old")),
        other => panic!("unexpected {other:?}"),
    }
}

#[test]
fn c_string_checks() {
    assert!(check_init_texts("t", "c", &None).is_ok());
    match check_init_texts("t", "c\0d", &Some("x\0".into())) {
        Err(QwenFfiError::InvalidParams(m)) => assert_eq!(m, "codec_path contains null byte"),
        other => panic!("unexpected {other:?}"),
    }
    match check_init_texts("t", "c", &Some("x\0".into())) {
        Err(QwenFfiError::InvalidParams(m)) => assert_eq!(m, "backend contains null byte"),
        other => panic!("unexpected {other:?}"),
    }
    assert!(check_tts_texts("hi", &Some("English".into()), &None, &None).is_ok());
    match check_tts_texts("hi", &None, &None, &Some("a\0b".into())) {
        Err(QwenFfiError::InvalidParams(m)) => assert_eq!(m, "speaker contains null byte"),
        other => panic!("unexpected {other:?}"),
    }
    match check_tts_texts("h\0i", &Some("\0".into()), &None, &None) {
        Err(QwenFfiError::InvalidParams(m)) => assert_eq!(m, "text contains null byte"),
        other => panic!("unexpected {other:?}"),
    }
}

#[test]
fn seeds() {
    // The seed of the given parameters decides; without parameters the defaults apply.
    let p = TtsParams { seed: 42, ..TtsParams::default() };
    assert_eq!(call_params(Some(p)).seed, 42);
    let q = TtsParams { seed: -1, top_k: 7, ..TtsParams::default() };
    assert_eq!(call_params(Some(q)), q);
    assert_eq!(call_params(None), TtsParams::default());
    assert_eq!(call_params(None).seed, -1);
}

#[test]
fn not_found_message() {
    let paths = vec!["/a/libqwen.so".to_string(), "libqwen.so".to_string()];
    match library_not_found(&paths, "None") {
        QwenFfiError::LibraryNotFound(m) => {
            assert_eq!(m, "tried paths: /a/libqwen.so, libqwen.so. Last error: None")
        }
        other => panic!("unexpected {other:?}"),
    }
}

fn request() -> QwenTtsRequest {
    QwenTtsRequest {
        text: "hello".into(),
        out: "o.wav".into(),
        talker: "t.gguf".into(),
        codec: "c.gguf".into(),
        lang: "English".into(),
        speaker: None,
        instruct: None,
        ref_wav: None,
        ref_text: None,
        ggml_backend: Some("CPU".into()),
        n_gpu_layers: 0,
        tts_params: TtsParams::default(),
    }
}

#[test]
fn ffi_run_writes_wav_and_frees() {
    let req = request();
    let (s, a) = ffi_step(&req, FfiStage::Start, FfiEvent::Begin);
    assert!(matches!(a, FfiAction::CheckExists(ref p) if p == "t.gguf"));
    let (s, _) = ffi_step(&req, s, FfiEvent::Exists(true));
    let (s, a) = ffi_step(&req, s, FfiEvent::Exists(true));
    assert!(matches!(a, FfiAction::PrepareOutputDir(ref p) if p == "o.wav"));
    let (s, a) = ffi_step(&req, s, FfiEvent::OutputDirReady(Ok(())));
    match &a {
        FfiAction::Init(p) => {
            assert_eq!(p.talker_path, "t.gguf");
            assert!(p.use_fa && !p.clamp_fp16);
            assert_eq!(p.backend.as_deref(), Some("CPU"));
            assert_eq!(p.n_gpu_layers, 0);
        }
        other => panic!("unexpected {other:?}"),
    }
    let (s, a) = ffi_step(&req, s, FfiEvent::Initialized(Ok(())));
    match &a {
        FfiAction::Synthesize(c) => {
            assert_eq!(c.text, "hello");
            assert_eq!(c.lang.as_deref(), Some("English"));
            assert_eq!(c.params.seed, -1);
        }
        other => panic!("unexpected {other:?}"),
    }
    let (s, a) = ffi_step(&req, s, FfiEvent::Synthesized(Ok(vec![0, 1])));
    match &a {
        FfiAction::WriteFile(p, bytes) => {
            assert_eq!(p, "o.wav");
            assert_eq!(bytes, &encode_wav_i16(&vec![0, 1], 24000));
        }
        other => panic!("unexpected {other:?}"),
    }
    let (s, a) = ffi_step(&req, s, FfiEvent::Written(Ok(())));
    assert_eq!(s, FfiStage::Finished);
    match a {
        FfiAction::Finish(Ok(SynthesisOutput::FileWritten(p)), true) => assert_eq!(p, "o.wav"),
        other => panic!("unexpected {other:?}"),
    }
}

#[test]
fn ffi_failures_free_only_created_contexts() {
    let req = request();
    let (_, a) = ffi_step(
        &req,
        FfiStage::Initializing,
        FfiEvent::Initialized(Err(QwenFfiError::SynthesisFailed(QtStatus::InvalidParams, "bad model".into()))),
    );
    match a {
        FfiAction::Finish(Err(e), false) => {
            assert_eq!(e.message(), "qwen init failed: qwen synthesis failed (code=InvalidParams): bad model")
        }
        other => panic!("unexpected {other:?}"),
    }
    let (_, a) = ffi_step(&req, FfiStage::Synthesizing, FfiEvent::Synthesized(Ok(vec![])));
    match a {
        FfiAction::Finish(Err(e), true) => {
            assert!(matches!(e, FfiRunError::NoAudio));
            assert_eq!(e.message(), "qwen synthesis returned no audio data");
        }
        other => panic!("unexpected {other:?}"),
    }
    let (_, a) = ffi_step(&req, FfiStage::Writing, FfiEvent::Written(Err("disk full".into())));
    match a {
        FfiAction::Finish(Err(e), true) => assert_eq!(e.message(), "failed to write WAV: disk full"),
        other => panic!("unexpected {other:?}"),
    }
    let mut blank = request();
    blank.text = " \n".into();
    let (_, a) = ffi_step(&blank, FfiStage::Start, FfiEvent::Begin);
    match a {
        FfiAction::Finish(Err(e), false) => assert_eq!(e.message(), "text input is empty"),
        other => panic!("unexpected {other:?}"),
    }
    let (_, a) = ffi_step(&req, FfiStage::CheckingTalker, FfiEvent::Exists(false));
    match a {
        FfiAction::Finish(Err(e), false) => assert_eq!(e.message(), "talker GGUF not found: t.gguf"),
        other => panic!("unexpected {other:?}"),
    }
}
