//! Requests to the `qwen-tts` command-line runner of qwentts.cpp, the command it is run
//! with, and the steps of a synthesis run: what is checked, created, spawned and awaited,
//! and in which order, with the outcome of each step handed back by the caller.

use vstd::prelude::*;
use crate::text::{is_blank, spec_is_blank};

verus! {

/// A 32-bit float, held by its IEEE-754 bit pattern.
#[derive(PartialEq, Eq, Structural, Debug, Clone, Copy)]
pub struct F32Bits(pub u32);

/// Advanced TTS generation parameters with sensible defaults.
#[derive(PartialEq, Eq, Structural, Debug, Clone, Copy)]
pub struct TtsParams {
    pub temperature: F32Bits,
    pub top_k: i32,
    pub top_p: F32Bits,
    pub repetition_penalty: F32Bits,
    /// -1 = use random seed
    pub seed: i64,
    pub max_new_tokens: i32,
}

impl TtsParams {
    /// Temperature 0.9, top-k 50, top-p 1.0, repetition penalty 1.05, random seed,
    /// 2048 new tokens at most.
    pub open spec fn spec_default() -> TtsParams {
        TtsParams {
            temperature: F32Bits(0x3f66_6666),
            top_k: 50i32,
            top_p: F32Bits(0x3f80_0000),
            repetition_penalty: F32Bits(0x3f86_6666),
            seed: -1i64,
            max_new_tokens: 2048i32,
        }
    }
}

impl Default for TtsParams {
    fn default() -> (p: Self)
        ensures
            p == TtsParams::spec_default(),
    {
        TtsParams {
            temperature: F32Bits(0x3f66_6666),
            top_k: 50,
            top_p: F32Bits(0x3f80_0000),
            repetition_penalty: F32Bits(0x3f86_6666),
            seed: -1,
            max_new_tokens: 2048,
        }
    }
}

/// The runner that spawns the `qwen-tts` binary of qwentts.cpp.
#[derive(Debug, Clone)]
pub struct QwenTtsRunner {
    pub qwen_tts_bin: String,
}

/// One synthesis request. Paths are held as the text of the path.
#[derive(Debug, Clone)]
pub struct QwenTtsRequest {
    pub text: String,
    pub out: String,
    pub talker: String,
    pub codec: String,
    pub lang: String,
    pub speaker: Option<String>,
    pub instruct: Option<String>,
    pub ref_wav: Option<String>,
    pub ref_text: Option<String>,
    pub ggml_backend: Option<String>,
    /// GPU layer count (-1 = all, 0 = CPU, N = first N layers on GPU).
    /// Used by the shared-library path; the process path ignores this.
    pub n_gpu_layers: i32,
    /// Advanced synthesis parameters (temperature, top_k, etc.)
    pub tts_params: TtsParams,
}

/// Output from a TTS synthesis.
#[derive(Debug)]
pub enum SynthesisOutput {
    /// A WAV file was written to the given path.
    FileWritten(String),
    /// Raw PCM audio samples (f32 mono, 24 kHz).
    AudioData(Vec<F32Bits>),
}

/// The view of a synthesis output.
pub enum OutputView {
    FileWritten(Seq<char>),
    AudioData(Seq<F32Bits>),
}

impl SynthesisOutput {
    pub open spec fn view(self) -> OutputView {
        match self {
            SynthesisOutput::FileWritten(p) => OutputView::FileWritten(p@),
            SynthesisOutput::AudioData(s) => OutputView::AudioData(s@),
        }
    }
}

/// Why a process synthesis run failed.
#[derive(Debug)]
pub enum RunnerError {
    /// The text holds nothing but white space.
    EmptyText,
    /// The `qwen-tts` binary is not at the given path.
    BinaryNotFound(String),
    /// The talker GGUF is not at the given path.
    TalkerNotFound(String),
    /// The codec GGUF is not at the given path.
    CodecNotFound(String),
    /// The output directory (first) could not be created; the second text is why.
    CreateDirFailed(String, String),
    /// The binary at the given path could not be started; the second text is why.
    SpawnFailed(String, String),
    /// The text could not be sent to the process; the text is why.
    StdinFailed(String),
    /// Waiting for the process failed; the text is why.
    WaitFailed(String),
    /// The process ended unsuccessfully with the given status.
    ProcessFailed(String),
    /// The process succeeded but wrote no file at the given path.
    OutputMissing(String),
}

/// The view of a process runner error.
pub enum RunnerErrorView {
    EmptyText,
    BinaryNotFound(Seq<char>),
    TalkerNotFound(Seq<char>),
    CodecNotFound(Seq<char>),
    CreateDirFailed(Seq<char>, Seq<char>),
    SpawnFailed(Seq<char>, Seq<char>),
    StdinFailed(Seq<char>),
    WaitFailed(Seq<char>),
    ProcessFailed(Seq<char>),
    OutputMissing(Seq<char>),
}

impl RunnerError {
    pub open spec fn view(self) -> RunnerErrorView {
        match self {
            RunnerError::EmptyText => RunnerErrorView::EmptyText,
            RunnerError::BinaryNotFound(p) => RunnerErrorView::BinaryNotFound(p@),
            RunnerError::TalkerNotFound(p) => RunnerErrorView::TalkerNotFound(p@),
            RunnerError::CodecNotFound(p) => RunnerErrorView::CodecNotFound(p@),
            RunnerError::CreateDirFailed(d, c) => RunnerErrorView::CreateDirFailed(d@, c@),
            RunnerError::SpawnFailed(b, c) => RunnerErrorView::SpawnFailed(b@, c@),
            RunnerError::StdinFailed(c) => RunnerErrorView::StdinFailed(c@),
            RunnerError::WaitFailed(c) => RunnerErrorView::WaitFailed(c@),
            RunnerError::ProcessFailed(s) => RunnerErrorView::ProcessFailed(s@),
            RunnerError::OutputMissing(p) => RunnerErrorView::OutputMissing(p@),
        }
    }
}

impl RunnerErrorView {
    /// The text that reports the error (without its cause).
    pub open spec fn summary(self) -> Seq<char> {
        match self {
            RunnerErrorView::EmptyText => "text input is empty"@,
            RunnerErrorView::BinaryNotFound(p) => "qwen-tts binary not found: "@ + p
                + "\nRun setup to build it: cargo run -- setup-script --target cuda > setup.sh && bash setup.sh"@,
            RunnerErrorView::TalkerNotFound(p) => "talker GGUF not found: "@ + p + "\nRun: cargo run -- download"@,
            RunnerErrorView::CodecNotFound(p) => "codec GGUF not found: "@ + p + "\nRun: cargo run -- download"@,
            RunnerErrorView::CreateDirFailed(d, _) => "failed to create output directory: "@ + d,
            RunnerErrorView::SpawnFailed(b, _) => "failed to spawn qwen-tts binary: "@ + b,
            RunnerErrorView::StdinFailed(_) => "failed to send prompt text to qwen-tts stdin"@,
            RunnerErrorView::WaitFailed(_) => "qwen-tts process wait failed"@,
            RunnerErrorView::ProcessFailed(s) => "qwen-tts failed with status: "@ + s,
            RunnerErrorView::OutputMissing(p) => "qwen-tts exited successfully but output file not found: "@ + p,
        }
    }

    /// The underlying failure, for the errors that have one.
    pub open spec fn cause(self) -> Option<Seq<char>> {
        match self {
            RunnerErrorView::CreateDirFailed(_, c) => Some(c),
            RunnerErrorView::SpawnFailed(_, c) => Some(c),
            RunnerErrorView::StdinFailed(c) => Some(c),
            RunnerErrorView::WaitFailed(c) => Some(c),
            _ => None,
        }
    }
}

impl RunnerError {
    /// The text that reports the error (without its cause).
    pub fn summary(&self) -> (m: String)
        ensures
            m@ == self.view().summary(),
    {
        match self {
            RunnerError::EmptyText => String::from_str("text input is empty"),
            RunnerError::BinaryNotFound(p) => {
                let mut m = String::from_str("qwen-tts binary not found: ");
                m.append(p.as_str());
                m.append(
                    "\nRun setup to build it: cargo run -- setup-script --target cuda > setup.sh && bash setup.sh",
                );
                m
            },
            RunnerError::TalkerNotFound(p) => {
                let mut m = String::from_str("talker GGUF not found: ");
                m.append(p.as_str());
                m.append("\nRun: cargo run -- download");
                m
            },
            RunnerError::CodecNotFound(p) => {
                let mut m = String::from_str("codec GGUF not found: ");
                m.append(p.as_str());
                m.append("\nRun: cargo run -- download");
                m
            },
            RunnerError::CreateDirFailed(d, _) => {
                let mut m = String::from_str("failed to create output directory: ");
                m.append(d.as_str());
                m
            },
            RunnerError::SpawnFailed(b, _) => {
                let mut m = String::from_str("failed to spawn qwen-tts binary: ");
                m.append(b.as_str());
                m
            },
            RunnerError::StdinFailed(_) => String::from_str("failed to send prompt text to qwen-tts stdin"),
            RunnerError::WaitFailed(_) => String::from_str("qwen-tts process wait failed"),
            RunnerError::ProcessFailed(s) => {
                let mut m = String::from_str("qwen-tts failed with status: ");
                m.append(s.as_str());
                m
            },
            RunnerError::OutputMissing(p) => {
                let mut m = String::from_str("qwen-tts exited successfully but output file not found: ");
                m.append(p.as_str());
                m
            },
        }
    }

    /// The underlying failure, for the errors that have one.
    pub fn cause(&self) -> (c: Option<String>)
        ensures
            match c {
                Some(t) => self.view().cause() == Some(t@),
                None => self.view().cause() is None,
            },
    {
        match self {
            RunnerError::CreateDirFailed(_, c) => Some(c.clone()),
            RunnerError::SpawnFailed(_, c) => Some(c.clone()),
            RunnerError::StdinFailed(c) => Some(c.clone()),
            RunnerError::WaitFailed(c) => Some(c.clone()),
            _ => None,
        }
    }
}

/// The command that runs the binary: its path, its arguments and the compute backend it is
/// given through `GGML_BACKEND`, if any. The text goes to its standard input.
#[derive(Debug)]
pub struct CommandSpec {
    pub program: String,
    pub args: Vec<String>,
    pub ggml_backend: Option<String>,
}

/// The view of a command.
pub struct CommandView {
    pub program: Seq<char>,
    pub args: Seq<Seq<char>>,
    pub ggml_backend: Option<Seq<char>>,
}

impl CommandSpec {
    pub open spec fn view(self) -> CommandView {
        CommandView {
            program: self.program@,
            args: self.args@.map_values(|a: String| a@),
            ggml_backend: match self.ggml_backend {
                Some(b) => Some(b@),
                None => None,
            },
        }
    }
}

/// `flag value` when the option is set, nothing otherwise.
pub open spec fn opt_args(flag: Seq<char>, value: Option<String>) -> Seq<Seq<char>> {
    match value {
        Some(v) => seq![flag, v@],
        None => Seq::empty(),
    }
}

/// The arguments of `qwen-tts` for a request: model, codec, language and output, then the
/// speaker, instruction, reference audio and reference text that are set.
pub open spec fn spec_args(req: QwenTtsRequest) -> Seq<Seq<char>> {
    seq!["--model"@, req.talker@, "--codec"@, req.codec@, "--lang"@, req.lang@, "-o"@, req.out@]
        + opt_args("--speaker"@, req.speaker) + opt_args("--instruct"@, req.instruct)
        + opt_args("--ref-wav"@, req.ref_wav) + opt_args("--ref-text"@, req.ref_text)
}

fn push_opt_args(args: &mut Vec<String>, flag: &str, value: &Option<String>)
    ensures
        final(args)@.map_values(|a: String| a@) == old(args)@.map_values(|a: String| a@)
            + opt_args(flag@, *value),
{
    match value {
        Some(v) => {
            let ghost before = args@;
            args.push(String::from_str(flag));
            args.push(v.clone());
            proof {
                assert(args@.map_values(|a: String| a@) =~= before.map_values(|a: String| a@)
                    + opt_args(flag@, *value));
            }
        },
        None => {
            proof {
                assert(args@.map_values(|a: String| a@) =~= args@.map_values(|a: String| a@)
                    + opt_args(flag@, *value));
            }
        },
    }
}

impl QwenTtsRunner {
    /// The command a request is run with.
    pub open spec fn spec_command(self, req: QwenTtsRequest) -> CommandView {
        CommandView {
            program: self.qwen_tts_bin@,
            args: spec_args(req),
            ggml_backend: match req.ggml_backend {
                Some(b) => Some(b@),
                None => None,
            },
        }
    }

    /// Builds the command a request is run with.
    pub fn command_spec(&self, req: &QwenTtsRequest) -> (cmd: CommandSpec)
        ensures
            cmd.view() == self.spec_command(*req),
    {
        let mut args: Vec<String> = Vec::new();
        args.push(String::from_str("--model"));
        args.push(req.talker.clone());
        args.push(String::from_str("--codec"));
        args.push(req.codec.clone());
        args.push(String::from_str("--lang"));
        args.push(req.lang.clone());
        args.push(String::from_str("-o"));
        args.push(req.out.clone());
        proof {
            assert(args@.map_values(|a: String| a@) =~= seq![
                "--model"@,
                req.talker@,
                "--codec"@,
                req.codec@,
                "--lang"@,
                req.lang@,
                "-o"@,
                req.out@,
            ]);
        }
        push_opt_args(&mut args, "--speaker", &req.speaker);
        push_opt_args(&mut args, "--instruct", &req.instruct);
        push_opt_args(&mut args, "--ref-wav", &req.ref_wav);
        push_opt_args(&mut args, "--ref-text", &req.ref_text);
        let ggml_backend = match &req.ggml_backend {
            Some(b) => Some(b.clone()),
            None => None,
        };
        CommandSpec { program: self.qwen_tts_bin.clone(), args, ggml_backend }
    }
}

/// Where a process synthesis run stands.
#[derive(PartialEq, Eq, Structural, Debug, Clone, Copy)]
pub enum RunStage {
    /// Nothing has happened yet.
    Start,
    /// Waiting to learn whether the binary exists.
    CheckingBinary,
    /// Waiting to learn whether the talker GGUF exists.
    CheckingTalker,
    /// Waiting to learn whether the codec GGUF exists.
    CheckingCodec,
    /// Waiting for the output directory to be created.
    PreparingOutputDir,
    /// Waiting for the process to start.
    Spawning,
    /// Waiting for the text to reach the process.
    SendingText,
    /// Waiting for the process to end.
    Waiting,
    /// Waiting to learn whether the output file exists.
    CheckingOutput,
    /// The run is over.
    Finished,
}

/// What the caller reports back after performing an action.
#[derive(Debug)]
pub enum RunEvent {
    /// The run starts.
    Begin,
    /// Whether the path asked about exists.
    Exists(bool),
    /// The output directory is ready, or could not be created (directory, cause).
    OutputDirReady(Result<(), (String, String)>),
    /// The process started / the text was sent, or that failed with the given cause.
    Completed(Result<(), String>),
    /// The process ended (successfully or not, with its status text), or waiting failed
    /// with the given cause.
    Exited(Result<(bool, String), String>),
}

/// What the caller is asked to do next.
#[derive(Debug)]
pub enum RunAction {
    /// Tell whether this path exists.
    CheckExists(String),
    /// Create the parent directory of this output path, if it has a non-empty one.
    PrepareOutputDir(String),
    /// Start this command with a piped standard input.
    Spawn(CommandSpec),
    /// Write this text to the process's standard input.
    SendText(String),
    /// Close the process's standard input and wait for it to end.
    Wait,
    /// The run is over with this result.
    Finish(Result<SynthesisOutput, RunnerError>),
}

/// The view of an event.
pub enum RunEventView {
    Begin,
    Exists(bool),
    OutputDirReady(Result<(), (Seq<char>, Seq<char>)>),
    Completed(Result<(), Seq<char>>),
    Exited(Result<(bool, Seq<char>), Seq<char>>),
}

/// The view of an action.
pub enum RunActionView {
    CheckExists(Seq<char>),
    PrepareOutputDir(Seq<char>),
    Spawn(CommandView),
    SendText(Seq<char>),
    Wait,
    Finish(Result<OutputView, RunnerErrorView>),
}

impl RunEvent {
    pub open spec fn view(self) -> RunEventView {
        match self {
            RunEvent::Begin => RunEventView::Begin,
            RunEvent::Exists(b) => RunEventView::Exists(b),
            RunEvent::OutputDirReady(r) => RunEventView::OutputDirReady(
                match r {
                    Ok(()) => Ok(()),
                    Err((d, c)) => Err((d@, c@)),
                },
            ),
            RunEvent::Completed(r) => RunEventView::Completed(
                match r {
                    Ok(()) => Ok(()),
                    Err(c) => Err(c@),
                },
            ),
            RunEvent::Exited(r) => RunEventView::Exited(
                match r {
                    Ok((ok, status)) => Ok((ok, status@)),
                    Err(c) => Err(c@),
                },
            ),
        }
    }
}

impl RunAction {
    pub open spec fn view(self) -> RunActionView {
        match self {
            RunAction::CheckExists(p) => RunActionView::CheckExists(p@),
            RunAction::PrepareOutputDir(p) => RunActionView::PrepareOutputDir(p@),
            RunAction::Spawn(c) => RunActionView::Spawn(c.view()),
            RunAction::SendText(t) => RunActionView::SendText(t@),
            RunAction::Wait => RunActionView::Wait,
            RunAction::Finish(r) => RunActionView::Finish(
                match r {
                    Ok(o) => Ok(o.view()),
                    Err(e) => Err(e.view()),
                },
            ),
        }
    }
}

/// The event kinds each stage waits for.
pub open spec fn spec_accepts(stage: RunStage, event: RunEventView) -> bool {
    match stage {
        RunStage::Start => event is Begin,
        RunStage::CheckingBinary | RunStage::CheckingTalker | RunStage::CheckingCodec
        | RunStage::CheckingOutput => event is Exists,
        RunStage::PreparingOutputDir => event is OutputDirReady,
        RunStage::Spawning | RunStage::SendingText => event is Completed,
        RunStage::Waiting => event is Exited,
        RunStage::Finished => false,
    }
}

/// A finished run with an error.
pub open spec fn fail(e: RunnerErrorView) -> (RunStage, RunActionView) {
    (RunStage::Finished, RunActionView::Finish(Err(e)))
}

impl QwenTtsRunner {
    /// One step of a run: the stage it moves to and the action it asks for, given the stage
    /// it is in and what the caller reported. An event the stage does not wait for ends the
    /// run with no action.
    pub open spec fn spec_step(
        self,
        req: QwenTtsRequest,
        stage: RunStage,
        event: RunEventView,
    ) -> (RunStage, RunActionView) {
        match (stage, event) {
            (RunStage::Start, RunEventView::Begin) => if spec_is_blank(req.text@) {
                fail(RunnerErrorView::EmptyText)
            } else {
                (RunStage::CheckingBinary, RunActionView::CheckExists(self.qwen_tts_bin@))
            },
            (RunStage::CheckingBinary, RunEventView::Exists(found)) => if !found {
                fail(RunnerErrorView::BinaryNotFound(self.qwen_tts_bin@))
            } else {
                (RunStage::CheckingTalker, RunActionView::CheckExists(req.talker@))
            },
            (RunStage::CheckingTalker, RunEventView::Exists(found)) => if !found {
                fail(RunnerErrorView::TalkerNotFound(req.talker@))
            } else {
                (RunStage::CheckingCodec, RunActionView::CheckExists(req.codec@))
            },
            (RunStage::CheckingCodec, RunEventView::Exists(found)) => if !found {
                fail(RunnerErrorView::CodecNotFound(req.codec@))
            } else {
                (RunStage::PreparingOutputDir, RunActionView::PrepareOutputDir(req.out@))
            },
            (RunStage::PreparingOutputDir, RunEventView::OutputDirReady(r)) => match r {
                Err((dir, cause)) => fail(RunnerErrorView::CreateDirFailed(dir, cause)),
                Ok(()) => (RunStage::Spawning, RunActionView::Spawn(self.spec_command(req))),
            },
            (RunStage::Spawning, RunEventView::Completed(r)) => match r {
                Err(cause) => fail(RunnerErrorView::SpawnFailed(self.qwen_tts_bin@, cause)),
                Ok(()) => (RunStage::SendingText, RunActionView::SendText(req.text@)),
            },
            (RunStage::SendingText, RunEventView::Completed(r)) => match r {
                Err(cause) => fail(RunnerErrorView::StdinFailed(cause)),
                Ok(()) => (RunStage::Waiting, RunActionView::Wait),
            },
            (RunStage::Waiting, RunEventView::Exited(r)) => match r {
                Err(cause) => fail(RunnerErrorView::WaitFailed(cause)),
                Ok((success, status)) => if !success {
                    fail(RunnerErrorView::ProcessFailed(status))
                } else {
                    (RunStage::CheckingOutput, RunActionView::CheckExists(req.out@))
                },
            },
            (RunStage::CheckingOutput, RunEventView::Exists(found)) => if !found {
                fail(RunnerErrorView::OutputMissing(req.out@))
            } else {
                (RunStage::Finished, RunActionView::Finish(Ok(OutputView::FileWritten(req.out@))))
            },
            _ => (RunStage::Finished, RunActionView::Wait),
        }
    }

    /// Performs one step of a synthesis run (see `spec_step`).
    pub fn step(&self, req: &QwenTtsRequest, stage: RunStage, event: RunEvent) -> (r: (
        RunStage,
        RunAction,
    ))
        requires
            spec_accepts(stage, event.view()),
        ensures
            (r.0, r.1.view()) == self.spec_step(*req, stage, event.view()),
    {
        match (stage, event) {
            (RunStage::Start, RunEvent::Begin) => {
                if is_blank(req.text.as_str()) {
                    (RunStage::Finished, RunAction::Finish(Err(RunnerError::EmptyText)))
                } else {
                    (RunStage::CheckingBinary, RunAction::CheckExists(self.qwen_tts_bin.clone()))
                }
            },
            (RunStage::CheckingBinary, RunEvent::Exists(found)) => {
                if !found {
                    (
                        RunStage::Finished,
                        RunAction::Finish(Err(RunnerError::BinaryNotFound(self.qwen_tts_bin.clone()))),
                    )
                } else {
                    (RunStage::CheckingTalker, RunAction::CheckExists(req.talker.clone()))
                }
            },
            (RunStage::CheckingTalker, RunEvent::Exists(found)) => {
                if !found {
                    (
                        RunStage::Finished,
                        RunAction::Finish(Err(RunnerError::TalkerNotFound(req.talker.clone()))),
                    )
                } else {
                    (RunStage::CheckingCodec, RunAction::CheckExists(req.codec.clone()))
                }
            },
            (RunStage::CheckingCodec, RunEvent::Exists(found)) => {
                if !found {
                    (
                        RunStage::Finished,
                        RunAction::Finish(Err(RunnerError::CodecNotFound(req.codec.clone()))),
                    )
                } else {
                    (RunStage::PreparingOutputDir, RunAction::PrepareOutputDir(req.out.clone()))
                }
            },
            (RunStage::PreparingOutputDir, RunEvent::OutputDirReady(r)) => match r {
                Err((dir, cause)) => (
                    RunStage::Finished,
                    RunAction::Finish(Err(RunnerError::CreateDirFailed(dir, cause))),
                ),
                Ok(()) => (RunStage::Spawning, RunAction::Spawn(self.command_spec(req))),
            },
            (RunStage::Spawning, RunEvent::Completed(r)) => match r {
                Err(cause) => (
                    RunStage::Finished,
                    RunAction::Finish(Err(RunnerError::SpawnFailed(self.qwen_tts_bin.clone(), cause))),
                ),
                Ok(()) => (RunStage::SendingText, RunAction::SendText(req.text.clone())),
            },
            (RunStage::SendingText, RunEvent::Completed(r)) => match r {
                Err(cause) => (RunStage::Finished, RunAction::Finish(Err(RunnerError::StdinFailed(cause)))),
                Ok(()) => (RunStage::Waiting, RunAction::Wait),
            },
            (RunStage::Waiting, RunEvent::Exited(r)) => match r {
                Err(cause) => (RunStage::Finished, RunAction::Finish(Err(RunnerError::WaitFailed(cause)))),
                Ok((success, status)) => {
                    if !success {
                        (RunStage::Finished, RunAction::Finish(Err(RunnerError::ProcessFailed(status))))
                    } else {
                        (RunStage::CheckingOutput, RunAction::CheckExists(req.out.clone()))
                    }
                },
            },
            (RunStage::CheckingOutput, RunEvent::Exists(found)) => {
                if !found {
                    (
                        RunStage::Finished,
                        RunAction::Finish(Err(RunnerError::OutputMissing(req.out.clone()))),
                    )
                } else {
                    (
                        RunStage::Finished,
                        RunAction::Finish(Ok(SynthesisOutput::FileWritten(req.out.clone()))),
                    )
                }
            },
            _ => (RunStage::Finished, RunAction::Wait),
        }
    }
}

/// The stage a run reaches after `k` events that each let it go on.
pub open spec fn stage_after(k: int) -> RunStage {
    if k == 0 {
        RunStage::Start
    } else if k == 1 {
        RunStage::CheckingBinary
    } else if k == 2 {
        RunStage::CheckingTalker
    } else if k == 3 {
        RunStage::CheckingCodec
    } else if k == 4 {
        RunStage::PreparingOutputDir
    } else if k == 5 {
        RunStage::Spawning
    } else if k == 6 {
        RunStage::SendingText
    } else if k == 7 {
        RunStage::Waiting
    } else if k == 8 {
        RunStage::CheckingOutput
    } else {
        RunStage::Finished
    }
}

/// The `k`-th event of a run lets it go on: it starts a run with a text that is not
/// blank, says that a checked path exists, or says that a step succeeded.
pub open spec fn event_goes_on(req: QwenTtsRequest, k: int, event: RunEventView) -> bool {
    if k == 0 {
        event is Begin && !spec_is_blank(req.text@)
    } else if k == 1 || k == 2 || k == 3 || k == 8 {
        event == RunEventView::Exists(true)
    } else if k == 4 {
        event matches RunEventView::OutputDirReady(Ok(_))
    } else if k == 5 || k == 6 {
        event matches RunEventView::Completed(Ok(_))
    } else if k == 7 {
        event matches RunEventView::Exited(Ok((true, _)))
    } else {
        false
    }
}

/// Every event of `events` lets the run go on.
pub open spec fn all_go_on(req: QwenTtsRequest, events: Seq<RunEventView>) -> bool {
    forall|k: int| 0 <= k < events.len() ==> event_goes_on(req, k, #[trigger] events[k])
}

impl QwenTtsRunner {
    /// The stage and the last action of a run that has received `events`, in order.
    pub open spec fn spec_run(self, req: QwenTtsRequest, events: Seq<RunEventView>) -> (
        RunStage,
        RunActionView,
    )
        decreases events.len(),
    {
        if events.len() == 0 {
            (RunStage::Start, RunActionView::Wait)
        } else {
            self.spec_step(req, self.spec_run(req, events.drop_last()).0, events.last())
        }
    }
}

proof fn lemma_step_shape(runner: QwenTtsRunner, req: QwenTtsRequest, n: int, event: RunEventView)
    requires
        0 <= n <= 8,
    ensures
        ({
            let (stage, action) = runner.spec_step(req, stage_after(n), event);
            &&& stage != RunStage::Finished ==> event_goes_on(req, n, event) && n + 1 <= 8 && stage
                == stage_after(n + 1)
            &&& action is Spawn ==> event_goes_on(req, n, event) && n == 4
            &&& action matches RunActionView::Finish(Ok(_)) ==> event_goes_on(req, n, event) && n == 8
            &&& event_goes_on(req, n, event) && n == 4 ==> action == RunActionView::Spawn(
                runner.spec_command(req),
            )
            &&& event_goes_on(req, n, event) && n < 8 ==> stage == stage_after(n + 1)
        }),
{
    if n == 0 {
    } else if n == 1 {
    } else if n == 2 {
    } else if n == 3 {
    } else if n == 4 {
    } else if n == 5 {
    } else if n == 6 {
    } else if n == 7 {
    } else {
    }
}

proof fn lemma_run_shape(runner: QwenTtsRunner, req: QwenTtsRequest, events: Seq<RunEventView>)
    ensures
        ({
            let (stage, action) = runner.spec_run(req, events);
            &&& stage != RunStage::Finished ==> all_go_on(req, events) && events.len() <= 8
                && stage == stage_after(events.len() as int)
            &&& action is Spawn ==> all_go_on(req, events) && events.len() == 5
            &&& action matches RunActionView::Finish(Ok(_)) ==> all_go_on(req, events) && events.len()
                == 9
        }),
    decreases events.len(),
{
    if events.len() > 0 {
        let prev = events.drop_last();
        lemma_run_shape(runner, req, prev);
        let n = prev.len() as int;
        let e = events.last();
        assert forall|k: int| 0 <= k < n implies #[trigger] events[k] == prev[k] by {}
        let (ps, _) = runner.spec_run(req, prev);
        if ps != RunStage::Finished {
            lemma_step_shape(runner, req, n, e);
            assert(events[n] == e);
        }
    }
}

proof fn lemma_run_good(runner: QwenTtsRunner, req: QwenTtsRequest, events: Seq<RunEventView>)
    requires
        all_go_on(req, events),
        events.len() <= 8,
    ensures
        runner.spec_run(req, events).0 == stage_after(events.len() as int),
        events.len() == 5 ==> runner.spec_run(req, events).1 == RunActionView::Spawn(
            runner.spec_command(req),
        ),
    decreases events.len(),
{
    if events.len() > 0 {
        let prev = events.drop_last();
        let n = prev.len() as int;
        assert forall|k: int| 0 <= k < n implies event_goes_on(req, k, #[trigger] prev[k]) by {
            assert(prev[k] == events[k]);
        }
        lemma_run_good(runner, req, prev);
        assert(event_goes_on(req, n, events[n]));
        lemma_step_shape(runner, req, n, events.last());
    }
}

/// A run asks to start the binary only after it was given a text that is not blank and
/// was told that the binary, the talker GGUF and the codec GGUF exist and that the output
/// directory is ready.
pub proof fn lemma_spawn_only_after_checks(
    runner: QwenTtsRunner,
    req: QwenTtsRequest,
    events: Seq<RunEventView>,
)
    requires
        runner.spec_run(req, events).1 is Spawn,
    ensures
        !spec_is_blank(req.text@),
        events.len() == 5,
        events[0] is Begin,
        events[1] == RunEventView::Exists(true),
        events[2] == RunEventView::Exists(true),
        events[3] == RunEventView::Exists(true),
        events[4] matches RunEventView::OutputDirReady(Ok(_)),
        runner.spec_run(req, events).1 == RunActionView::Spawn(runner.spec_command(req)),
{
    lemma_run_shape(runner, req, events);
    assert(event_goes_on(req, 0, events[0]));
    assert(event_goes_on(req, 1, events[1]));
    assert(event_goes_on(req, 2, events[2]));
    assert(event_goes_on(req, 3, events[3]));
    assert(event_goes_on(req, 4, events[4]));
    lemma_run_shape(runner, req, events.drop_last());
}

/// A run succeeds only after the process was spawned, ended successfully and left the
/// output file; it then reports the requested output path as written.
pub proof fn lemma_success_only_with_output(
    runner: QwenTtsRunner,
    req: QwenTtsRequest,
    events: Seq<RunEventView>,
)
    requires
        runner.spec_run(req, events).1 matches RunActionView::Finish(Ok(_)),
    ensures
        events.len() == 9,
        runner.spec_run(req, events.take(5)).1 is Spawn,
        events[7] matches RunEventView::Exited(Ok((true, _))),
        events[8] == RunEventView::Exists(true),
        runner.spec_run(req, events).1 == RunActionView::Finish(Ok(OutputView::FileWritten(req.out@))),
{
    lemma_run_shape(runner, req, events);
    assert(event_goes_on(req, 7, events[7]));
    assert(event_goes_on(req, 8, events[8]));
    let prefix = events.take(5);
    assert forall|k: int| 0 <= k < prefix.len() implies event_goes_on(req, k, #[trigger] prefix[k]) by {
        assert(prefix[k] == events[k]);
    }
    lemma_run_good(runner, req, prefix);
    let prev = events.drop_last();
    lemma_run_shape(runner, req, prev);
    assert forall|k: int| 0 <= k < prev.len() implies event_goes_on(req, k, #[trigger] prev[k]) by {
        assert(prev[k] == events[k]);
    }
    lemma_run_good(runner, req, prev);
}

/// Two arguments when the option is set, none otherwise.
pub open spec fn pair_len(o: Option<String>) -> int {
    if o is Some {
        2
    } else {
        0
    }
}

/// The arguments hold `flag` immediately followed by `value`.
pub open spec fn has_pair(args: Seq<Seq<char>>, flag: Seq<char>, value: Seq<char>) -> bool {
    exists|k: int| 0 <= k && k + 1 < args.len() && #[trigger] args[k] == flag && args[k + 1] == value
}

/// The command a request runs is the runner's binary with the model, codec, language and
/// output first, then one flag/value pair for each of speaker, instruction, reference
/// audio and reference text that the request sets, and nothing more; its backend is the
/// request's.
pub proof fn lemma_command_carries_every_option(runner: QwenTtsRunner, req: QwenTtsRequest)
    ensures
        ({
            let cmd = runner.spec_command(req);
            let args = cmd.args;
            &&& cmd.program == runner.qwen_tts_bin@
            &&& cmd.ggml_backend == (match req.ggml_backend {
                Some(b) => Some(b@),
                None => None,
            })
            &&& args.len() == 8 + pair_len(req.speaker) + pair_len(req.instruct) + pair_len(req.ref_wav)
                + pair_len(req.ref_text)
            &&& args.subrange(0, 8) == seq![
                "--model"@,
                req.talker@,
                "--codec"@,
                req.codec@,
                "--lang"@,
                req.lang@,
                "-o"@,
                req.out@,
            ]
            &&& req.speaker matches Some(v) ==> has_pair(args, "--speaker"@, v@)
            &&& req.instruct matches Some(v) ==> has_pair(args, "--instruct"@, v@)
            &&& req.ref_wav matches Some(v) ==> has_pair(args, "--ref-wav"@, v@)
            &&& req.ref_text matches Some(v) ==> has_pair(args, "--ref-text"@, v@)
        }),
{
    let base = seq!["--model"@, req.talker@, "--codec"@, req.codec@, "--lang"@, req.lang@, "-o"@, req.out@];
    let a = opt_args("--speaker"@, req.speaker);
    let b = opt_args("--instruct"@, req.instruct);
    let c = opt_args("--ref-wav"@, req.ref_wav);
    let d = opt_args("--ref-text"@, req.ref_text);
    let args = spec_args(req);
    assert(args == base + a + b + c + d);
    assert(a.len() == pair_len(req.speaker));
    assert(b.len() == pair_len(req.instruct));
    assert(c.len() == pair_len(req.ref_wav));
    assert(d.len() == pair_len(req.ref_text));
    assert(args.subrange(0, 8) =~= base);
    let ka: int = 8;
    let kb: int = ka + a.len();
    let kc: int = kb + b.len();
    let kd: int = kc + c.len();
    if let Some(v) = req.speaker {
        assert(args[ka] == a[0] && args[ka + 1] == a[1]);
        assert(has_pair(args, "--speaker"@, v@));
    }
    if let Some(v) = req.instruct {
        assert(args[kb] == b[0] && args[kb + 1] == b[1]);
        assert(has_pair(args, "--instruct"@, v@));
    }
    if let Some(v) = req.ref_wav {
        assert(args[kc] == c[0] && args[kc + 1] == c[1]);
        assert(has_pair(args, "--ref-wav"@, v@));
    }
    if let Some(v) = req.ref_text {
        assert(args[kd] == d[0] && args[kd + 1] == d[1]);
        assert(has_pair(args, "--ref-text"@, v@));
    }
}

} // verus!
