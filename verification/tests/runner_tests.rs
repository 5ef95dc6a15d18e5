use qwen_tts_app::qwentts_cli::{
    F32Bits, QwenTtsRequest, QwenTtsRunner, RunAction, RunEvent, RunStage, RunnerError,
    SynthesisOutput, TtsParams,
};

fn request(text: &str, talker: &str, codec: &str) -> QwenTtsRequest {
    QwenTtsRequest {
        text: text.into(),
        out: "out.wav".into(),
        talker: talker.into(),
        codec: codec.into(),
        lang: "English".into(),
        speaker: None,
        instruct: None,
        ref_wav: None,
        ref_text: None,
        ggml_backend: None,
        n_gpu_layers: -1,
        tts_params: TtsParams::default(),
    }
}

/// Drives a run; `exists` answers the existence checks, every other step succeeds.
fn drive(
    runner: &QwenTtsRunner,
    req: &QwenTtsRequest,
    exists: &dyn Fn(&str) -> bool,
) -> (Result<SynthesisOutput, RunnerError>, Vec<String>) {
    let mut trace = Vec::new();
    let (mut stage, mut action) = runner.step(req, RunStage::Start, RunEvent::Begin);
    loop {
        let event = match action {
            RunAction::CheckExists(p) => {
                trace.push(format!("exists {p}"));
                RunEvent::Exists(exists(&p))
            }
            RunAction::PrepareOutputDir(p) => {
                trace.push(format!("dir {p}"));
                RunEvent::OutputDirReady(Ok(()))
            }
            RunAction::Spawn(cmd) => {
                trace.push(format!("spawn {} {}", cmd.program, cmd.args.join(" ")));
                RunEvent::Completed(Ok(()))
            }
            RunAction::SendText(t) => {
                trace.push(format!("send {t}"));
                RunEvent::Completed(Ok(()))
            }
            RunAction::Wait => {
                trace.push("wait".to_string());
                RunEvent::Exited(Ok((true, "exit status: 0".to_string())))
            }
            RunAction::Finish(r) => return (r, trace),
        };
        let next = runner.step(req, stage, event);
        stage = next.0;
        action = next.1;
    }
}

#[test]
fn test_missing_binary_returns_error() {
    let runner = QwenTtsRunner { qwen_tts_bin: "/nonexistent/qwen-tts".into() };
    let req = request("hello", "talker.gguf", "codec.gguf");
    let (r, _) = drive(&runner, &req, &|p: &str| std::path::Path::new(p).exists());
    let err = r.unwrap_err();
    let msg = err.summary();
    assert!(msg.contains("binary not found"), "got: {msg}");
}

#[test]
fn test_missing_talker_returns_error() {
    // The binary is taken to exist; the model files do not.
    let runner = QwenTtsRunner { qwen_tts_bin: "target/debug/qwen-tts-app.exe".into() };
    let req = request("hello", "/nonexistent/talker.gguf", "/nonexistent/codec.gguf");
    let (r, _) = drive(&runner, &req, &|p: &str| p == "target/debug/qwen-tts-app.exe");
    let err = r.unwrap_err();
    let msg = err.summary();
    assert!(msg.contains("talker GGUF not found"), "got: {msg}");
}

#[test]
fn test_empty_text_returns_error() {
    let runner = QwenTtsRunner { qwen_tts_bin: "target/debug/qwen-tts-app.exe".into() };
    let req = request("   ", "/nonexistent/talker.gguf", "/nonexistent/codec.gguf");
    let (r, trace) = drive(&runner, &req, &|p: &str| p == "target/debug/qwen-tts-app.exe");
    let err = r.unwrap_err();
    let msg = err.summary();
    assert!(msg.contains("text input is empty"), "got: {msg}");
    assert!(trace.is_empty());
}

#[test]
fn test_request_builds_correct_args() {
    let req = QwenTtsRequest {
        text: "test".into(),
        out: "out.wav".into(),
        talker: "t.gguf".into(),
        codec: "c.gguf".into(),
        lang: "Chinese".into(),
        speaker: Some("vivian".into()),
        instruct: None,
        ref_wav: Some("ref.wav".into()),
        ref_text: Some("ref.txt".into()),
        ggml_backend: Some("CUDA0".into()),
        n_gpu_layers: -1,
        tts_params: TtsParams::default(),
    };
    assert_eq!(req.text, "test");
    assert_eq!(req.speaker.as_deref(), Some("vivian"));
    assert_eq!(req.ggml_backend.as_deref(), Some("CUDA0"));
    let runner = QwenTtsRunner { qwen_tts_bin: "qwen-tts".into() };
    let cmd = runner.command_spec(&req);
    assert_eq!(cmd.program, "qwen-tts");
    assert_eq!(
        cmd.args,
        vec![
            "--model", "t.gguf", "--codec", "c.gguf", "--lang", "Chinese", "-o", "out.wav",
            "--speaker", "vivian", "--ref-wav", "ref.wav", "--ref-text", "ref.txt"
        ]
    );
    assert_eq!(cmd.ggml_backend.as_deref(), Some("CUDA0"));
}

#[test]
fn successful_run_follows_every_step() {
    let runner = QwenTtsRunner { qwen_tts_bin: "bin".into() };
    let req = request("hello", "t.gguf", "c.gguf");
    let (r, trace) = drive(&runner, &req, &|_: &str| true);
    match r {
        Ok(SynthesisOutput::FileWritten(p)) => assert_eq!(p, "out.wav"),
        other => panic!("unexpected {other:?}"),
    }
    assert_eq!(
        trace,
        vec![
            "exists bin",
            "exists t.gguf",
            "exists c.gguf",
            "dir out.wav",
            "spawn bin --model t.gguf --codec c.gguf --lang English -o out.wav",
            "send hello",
            "wait",
            "exists out.wav"
        ]
    );
}

#[test]
fn failed_process_and_missing_output() {
    let runner = QwenTtsRunner { qwen_tts_bin: "bin".into() };
    let req = request("hello", "t.gguf", "c.gguf");
    let (_, a) = runner.step(&req, RunStage::Waiting, RunEvent::Exited(Ok((false, "exit status: 2".into()))));
    match a {
        RunAction::Finish(Err(e)) => assert_eq!(e.summary(), "qwen-tts failed with status: exit status: 2"),
        other => panic!("unexpected {other:?}"),
    }
    let (_, a) = runner.step(&req, RunStage::CheckingOutput, RunEvent::Exists(false));
    match a {
        RunAction::Finish(Err(e)) => assert_eq!(
            e.summary(),
            "qwen-tts exited successfully but output file not found: out.wav"
        ),
        other => panic!("unexpected {other:?}"),
    }
    let (_, a) = runner.step(
        &req,
        RunStage::PreparingOutputDir,
        RunEvent::OutputDirReady(Err(("out".into(), "permission denied".into()))),
    );
    match a {
        RunAction::Finish(Err(e)) => {
            assert_eq!(e.summary(), "failed to create output directory: out");
            assert_eq!(e.cause().as_deref(), Some("permission denied"));
        }
        other => panic!("unexpected {other:?}"),
    }
}

#[test]
fn runner_error_messages() {
    assert_eq!(
        RunnerError::BinaryNotFound("b".into()).summary(),
        "qwen-tts binary not found: b\nRun setup to build it: cargo run -- setup-script --target cuda > setup.sh && bash setup.sh"
    );
    assert_eq!(
        RunnerError::CodecNotFound("c".into()).summary(),
        "codec GGUF not found: c\nRun: cargo run -- download"
    );
    assert_eq!(RunnerError::EmptyText.cause(), None);
}

#[test]
fn default_tts_params() {
    let p = TtsParams::default();
    assert_eq!(f32::from_bits(p.temperature.0), 0.9f32);
    assert_eq!(f32::from_bits(p.top_p.0), 1.0f32);
    assert_eq!(f32::from_bits(p.repetition_penalty.0), 1.05f32);
    assert_eq!(p.top_k, 50);
    assert_eq!(p.seed, -1);
    assert_eq!(p.max_new_tokens, 2048);
    assert_eq!(p.temperature, F32Bits(0.9f32.to_bits()));
}
