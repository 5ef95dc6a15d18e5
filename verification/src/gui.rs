//! The desktop studio's own rules: its log, its form and the request it makes from it,
//! the devices it offers, the presets it shows and the fonts it looks for.

use vstd::prelude::*;
use crate::config::AppConfig;
use crate::platform::TargetOs;
use crate::qwentts_cli::{QwenTtsRequest, TtsParams};
use crate::qwen_ffi::spec_join_comma;
use crate::text::{spec_decimal, str_equal, u64_to_decimal};

verus! {

/// The generation log shown in the studio: lines in the order they were added.
#[derive(Debug)]
pub struct LogCollector {
    lines: Vec<String>,
}

impl LogCollector {
    /// The lines, in order.
    pub closed spec fn view(&self) -> Seq<Seq<char>> {
        self.lines@.map_values(|l: String| l@)
    }

    /// An empty log.
    pub fn new() -> (log: Self)
        ensures
            log@ == Seq::<Seq<char>>::empty(),
    {
        LogCollector { lines: Vec::new() }
    }

    /// Adds a line at the end.
    pub fn push(&mut self, msg: String)
        ensures
            final(self)@ == old(self)@.push(msg@),
    {
        let ghost before = self.lines@;
        self.lines.push(msg);
        proof {
            assert(self.lines@.map_values(|l: String| l@) =~= before.map_values(|l: String| l@).push(
                msg@,
            ));
        }
    }

    /// A copy of the lines.
    pub fn snapshot(&self) -> (lines: Vec<String>)
        ensures
            lines@.map_values(|l: String| l@) == self@,
    {
        let mut lines: Vec<String> = Vec::new();
        let mut i: usize = 0;
        while i < self.lines.len()
            invariant
                i <= self.lines.len(),
                lines@.map_values(|l: String| l@) == self.lines@.map_values(|l: String| l@).take(
                    i as int,
                ),
            decreases self.lines.len() - i,
        {
            let ghost before = lines@;
            let c = self.lines[i].clone();
            lines.push(c);
            proof {
                assert(c@ == self.lines@[i as int]@);
                assert(lines@ == before.push(c));
                assert(lines@.map_values(|l: String| l@) =~= before.map_values(|l: String| l@).push(c@));
                let all = self.lines@.map_values(|l: String| l@);
                assert(all.take(i + 1) =~= all.take(i as int).push(all[i as int]));
                assert(lines@.map_values(|l: String| l@) =~= self.lines@.map_values(|l: String| l@).take(
                    i + 1,
                ));
            }
            i = i + 1;
        }
        proof {
            assert(self.lines@.map_values(|l: String| l@).take(self.lines.len() as int)
                =~= self.lines@.map_values(|l: String| l@));
        }
        lines
    }
}

/// The voice mode of the studio.
#[derive(PartialEq, Eq, Structural, Debug, Clone, Copy)]
pub enum SynthesisMode {
    /// Default voice, or a cloned one from a reference recording.
    Base,
    /// A named speaker.
    CustomVoice,
    /// A voice described by an instruction.
    VoiceDesign,
}

impl SynthesisMode {
    /// The sampling preset shown for the mode.
    pub open spec fn spec_preset_hint(self) -> Seq<char> {
        match self {
            SynthesisMode::Base => "Balanced: temp 0.9, top-k 50, top-p 1.0"@,
            SynthesisMode::CustomVoice => "Voice clone: temp 0.8, top-k 40, top-p 0.95"@,
            SynthesisMode::VoiceDesign => "Design: temp 1.0, top-k 60, top-p 1.0"@,
        }
    }

    /// The sampling preset shown for the mode.
    pub fn preset_hint(&self) -> (s: String)
        ensures
            s@ == self.spec_preset_hint(),
    {
        match self {
            SynthesisMode::Base => String::from_str("Balanced: temp 0.9, top-k 50, top-p 1.0"),
            SynthesisMode::CustomVoice => String::from_str("Voice clone: temp 0.8, top-k 40, top-p 0.95"),
            SynthesisMode::VoiceDesign => String::from_str("Design: temp 1.0, top-k 60, top-p 1.0"),
        }
    }
}

/// The studio's form: every input field but the three float sampling parameters.
#[derive(Debug)]
pub struct GuiForm {
    pub text: String,
    pub language: String,
    pub speaker: String,
    pub instruct: String,
    pub talker_path: String,
    pub codec_path: String,
    pub qwen_tts_bin: String,
    pub output_path: String,
    pub ref_wav_path: String,
    pub ref_text_path: String,
    pub device: String,
    pub n_gpu_layers: i32,
    pub top_k: i32,
    pub seed: i64,
    pub max_new_tokens: i32,
    pub mode: SynthesisMode,
}

impl GuiForm {
    /// The form as the studio opens it.
    pub open spec fn spec_is_initial(self) -> bool {
        &&& self.text@ == Seq::<char>::empty()
        &&& self.language@ == "English"@
        &&& self.speaker@ == Seq::<char>::empty()
        &&& self.instruct@ == Seq::<char>::empty()
        &&& self.talker_path@ == "models/qwen-talker-1.7b-base-Q8_0.gguf"@
        &&& self.codec_path@ == "models/qwen-tokenizer-12hz-Q8_0.gguf"@
        &&& self.qwen_tts_bin@ == "qwentts.cpp/build/qwen-tts"@
        &&& self.output_path@ == "output.wav"@
        &&& self.ref_wav_path@ == Seq::<char>::empty()
        &&& self.ref_text_path@ == Seq::<char>::empty()
        &&& self.device@ == "auto"@
        &&& self.n_gpu_layers == -1
        &&& self.top_k == 50
        &&& self.seed == -1
        &&& self.max_new_tokens == 2048
        &&& self.mode == SynthesisMode::Base
    }

    /// Takes the language and device from the configuration, and the model and binary
    /// paths that it sets.
    pub fn apply_config(&mut self, cfg: &AppConfig)
        ensures
            final(self).qwen_tts_bin@ == match cfg.qwen_tts_bin {
                Some(b) => b@,
                None => old(self).qwen_tts_bin@,
            },
            final(self).talker_path@ == match cfg.talker {
                Some(t) => t@,
                None => old(self).talker_path@,
            },
            final(self).codec_path@ == match cfg.codec {
                Some(c) => c@,
                None => old(self).codec_path@,
            },
            final(self).language@ == cfg.language@,
            final(self).device@ == cfg.device@,
            final(self).text == old(self).text,
            final(self).speaker == old(self).speaker,
            final(self).instruct == old(self).instruct,
            final(self).output_path == old(self).output_path,
            final(self).ref_wav_path == old(self).ref_wav_path,
            final(self).ref_text_path == old(self).ref_text_path,
            final(self).n_gpu_layers == old(self).n_gpu_layers,
            final(self).top_k == old(self).top_k,
            final(self).seed == old(self).seed,
            final(self).max_new_tokens == old(self).max_new_tokens,
            final(self).mode == old(self).mode,
    {
        self.language = cfg.language.clone();
        self.device = cfg.device.clone();
        match &cfg.qwen_tts_bin {
            Some(b) => {
                self.qwen_tts_bin = b.clone();
            },
            None => {},
        }
        match &cfg.talker {
            Some(t) => {
                self.talker_path = t.clone();
            },
            None => {},
        }
        match &cfg.codec {
            Some(c) => {
                self.codec_path = c.clone();
            },
            None => {},
        }
    }
}

impl Default for GuiForm {
    fn default() -> (form: Self)
        ensures
            form.spec_is_initial(),
    {
        GuiForm {
            text: String::new(),
            language: String::from_str("English"),
            speaker: String::new(),
            instruct: String::new(),
            talker_path: String::from_str("models/qwen-talker-1.7b-base-Q8_0.gguf"),
            codec_path: String::from_str("models/qwen-tokenizer-12hz-Q8_0.gguf"),
            qwen_tts_bin: String::from_str("qwentts.cpp/build/qwen-tts"),
            output_path: String::from_str("output.wav"),
            ref_wav_path: String::new(),
            ref_text_path: String::new(),
            device: String::from_str("auto"),
            n_gpu_layers: -1,
            top_k: 50,
            seed: -1,
            max_new_tokens: 2048,
            mode: SynthesisMode::Base,
        }
    }
}

/// Generation can start: there is text and no generation is running.
pub fn can_generate(text: &str, is_generating: bool) -> (r: bool)
    ensures
        r == (text@.len() > 0 && !is_generating),
{
    !text.is_empty() && !is_generating
}

/// The output path a generation writes to: a timestamped file under `output/` when the
/// field is empty or still the initial `output.wav`, else the field as it stands.
pub open spec fn spec_generation_output_path(current: Seq<char>, now_secs: u64) -> Seq<char> {
    if current == "output.wav"@ || current.len() == 0 {
        "output/voice_"@ + spec_decimal(now_secs as nat) + ".wav"@
    } else {
        current
    }
}

/// Chooses the output path of a generation started at `now_secs` (seconds since the Unix
/// epoch).
pub fn generation_output_path(current: &str, now_secs: u64) -> (path: String)
    ensures
        path@ == spec_generation_output_path(current@, now_secs),
{
    if str_equal(current, "output.wav") || current.is_empty() {
        let mut path = String::from_str("output/voice_");
        let ts = u64_to_decimal(now_secs);
        path.append(ts.as_str());
        path.append(".wav");
        path
    } else {
        String::from_str(current)
    }
}

fn non_empty(s: &String) -> (r: Option<String>)
    ensures
        match r {
            Some(v) => s@.len() > 0 && v@ == s@,
            None => s@.len() == 0,
        },
{
    if s.as_str().is_empty() {
        None
    } else {
        Some(s.clone())
    }
}

/// Builds the request of a generation from the form: the speaker only in CustomVoice mode,
/// the instruction only in VoiceDesign mode, the reference files when given, the device
/// unless it is `auto`.
pub fn gui_request(form: &GuiForm, out: String, tts_params: TtsParams) -> (req: QwenTtsRequest)
    ensures
        req.text@ == form.text@,
        req.out@ == out@,
        req.talker@ == form.talker_path@,
        req.codec@ == form.codec_path@,
        req.lang@ == form.language@,
        match req.speaker {
            Some(s) => form.mode == SynthesisMode::CustomVoice && s@ == form.speaker@,
            None => form.mode != SynthesisMode::CustomVoice,
        },
        match req.instruct {
            Some(i) => form.mode == SynthesisMode::VoiceDesign && i@ == form.instruct@,
            None => form.mode != SynthesisMode::VoiceDesign,
        },
        match req.ref_wav {
            Some(p) => form.ref_wav_path@.len() > 0 && p@ == form.ref_wav_path@,
            None => form.ref_wav_path@.len() == 0,
        },
        match req.ref_text {
            Some(p) => form.ref_text_path@.len() > 0 && p@ == form.ref_text_path@,
            None => form.ref_text_path@.len() == 0,
        },
        match req.ggml_backend {
            Some(d) => form.device@ != "auto"@ && d@ == form.device@,
            None => form.device@ == "auto"@,
        },
        req.n_gpu_layers == form.n_gpu_layers,
        req.tts_params == tts_params,
{
    let speaker = if form.mode == SynthesisMode::CustomVoice {
        Some(form.speaker.clone())
    } else {
        None
    };
    let instruct = if form.mode == SynthesisMode::VoiceDesign {
        Some(form.instruct.clone())
    } else {
        None
    };
    let ggml_backend = if !str_equal(form.device.as_str(), "auto") {
        Some(form.device.clone())
    } else {
        None
    };
    QwenTtsRequest {
        text: form.text.clone(),
        out,
        talker: form.talker_path.clone(),
        codec: form.codec_path.clone(),
        lang: form.language.clone(),
        speaker,
        instruct,
        ref_wav: non_empty(&form.ref_wav_path),
        ref_text: non_empty(&form.ref_text_path),
        ggml_backend,
        n_gpu_layers: form.n_gpu_layers,
        tts_params,
    }
}

/// `has_system_dll` may answer `answer` about the library `name`.
pub open spec fn dll_answered<D: Fn(&str) -> bool>(has_system_dll: D, name: Seq<char>, answer: bool) -> bool {
    exists|n: &str| n@ == name && #[trigger] has_system_dll.ensures((n,), answer)
}

/// The devices offered on an operating system: automatic selection and the CPU always; on
/// Windows CUDA0 when the NVIDIA driver library loads and Vulkan0 when the Vulkan loader
/// does; Metal on macOS.
pub open spec fn spec_devices(os: TargetOs, cuda: bool, vulkan: bool) -> Seq<Seq<char>> {
    let base = seq!["auto"@, "CPU"@];
    match os {
        TargetOs::Windows => {
            let with_cuda = if cuda {
                base.push("CUDA0"@)
            } else {
                base
            };
            if vulkan {
                with_cuda.push("Vulkan0"@)
            } else {
                with_cuda
            }
        },
        TargetOs::MacOs => base.push("Metal"@),
        _ => base,
    }
}

/// Probes the available GGML backends. `has_system_dll` tells whether a system library
/// loads; it is asked only on Windows, about `nvcuda.dll` and then `vulkan-1.dll`.
pub fn probe_available_devices<D>(os: TargetOs, has_system_dll: D) -> (devices: Vec<String>)
    where
        D: Fn(&str) -> bool,
    requires
        forall|n: &str| #[trigger] has_system_dll.requires((n,)),
    ensures
        os == TargetOs::Windows ==> exists|cuda: bool, vulkan: bool|
            dll_answered(has_system_dll, "nvcuda.dll"@, cuda) && dll_answered(
                has_system_dll,
                "vulkan-1.dll"@,
                vulkan,
            ) && #[trigger] spec_devices(os, cuda, vulkan) == devices@.map_values(|d: String| d@),
        os != TargetOs::Windows ==> devices@.map_values(|d: String| d@) == spec_devices(os, false, false),
{
    let mut devices: Vec<String> = Vec::new();
    devices.push(String::from_str("auto"));
    devices.push(String::from_str("CPU"));
    let ghost base = devices@;
    proof {
        assert(base.map_values(|d: String| d@) =~= seq!["auto"@, "CPU"@]);
    }
    if os == TargetOs::Windows {
        let cuda_name: &str = "nvcuda.dll";
        let cuda = has_system_dll(cuda_name);
        proof {
            assert(has_system_dll.ensures((cuda_name,), cuda));
        }
        if cuda {
            devices.push(String::from_str("CUDA0"));
        }
        let ghost with_cuda = devices@;
        let vulkan_name: &str = "vulkan-1.dll";
        let vulkan = has_system_dll(vulkan_name);
        proof {
            assert(has_system_dll.ensures((vulkan_name,), vulkan));
        }
        if vulkan {
            devices.push(String::from_str("Vulkan0"));
        }
        proof {
            assert(dll_answered(has_system_dll, "nvcuda.dll"@, cuda));
            assert(dll_answered(has_system_dll, "vulkan-1.dll"@, vulkan));
            if cuda {
                assert(with_cuda.map_values(|d: String| d@) =~= seq!["auto"@, "CPU"@].push("CUDA0"@));
            } else {
                assert(with_cuda.map_values(|d: String| d@) =~= seq!["auto"@, "CPU"@]);
            }
            assert(spec_devices(os, cuda, vulkan) =~= devices@.map_values(|d: String| d@));
        }
    } else if os == TargetOs::MacOs {
        devices.push(String::from_str("Metal"));
        proof {
            assert(devices@.map_values(|d: String| d@) =~= spec_devices(os, false, false));
        }
    } else {
        proof {
            assert(devices@.map_values(|d: String| d@) =~= spec_devices(os, false, false));
        }
    }
    devices
}

/// The log lines the studio starts with: the available devices, and a hint about GPU
/// drivers when only automatic selection and the CPU are available.
pub open spec fn spec_startup_log(devices: Seq<Seq<char>>) -> Seq<Seq<char>> {
    let first = seq!["Available devices: "@ + spec_join_comma(devices)];
    if devices.len() <= 2 {
        first.push("ℹ️ Only CPU detected. For GPU acceleration, install NVIDIA CUDA or Vulkan drivers."@)
    } else {
        first
    }
}

/// Writes the studio's first log lines about the available devices.
pub fn log_available_devices(log: &mut LogCollector, devices: &Vec<String>)
    ensures
        final(log)@ == old(log)@ + spec_startup_log(devices@.map_values(|d: String| d@)),
{
    let mut line = String::from_str("Available devices: ");
    let ghost head = line@;
    let ghost all = devices@.map_values(|d: String| d@);
    let mut i: usize = 0;
    while i < devices.len()
        invariant
            i <= devices.len(),
            all == devices@.map_values(|d: String| d@),
            line@ == head + spec_join_comma(all.take(i as int)),
        decreases devices.len() - i,
    {
        proof {
            assert(all.take(i + 1).drop_last() == all.take(i as int));
            if i == 0 {
                assert(all.take(1) =~= seq![all[0]]);
            }
        }
        if i > 0 {
            line.append(", ");
        }
        line.append(devices[i].as_str());
        i = i + 1;
    }
    proof {
        assert(all.take(devices.len() as int) == all);
    }
    let ghost before = log@;
    log.push(line);
    if devices.len() <= 2 {
        log.push(
            String::from_str(
                "ℹ️ Only CPU detected. For GPU acceleration, install NVIDIA CUDA or Vulkan drivers.",
            ),
        );
    }
    proof {
        assert(log@ =~= before + spec_startup_log(all));
    }
}

/// The system CJK font files looked for, in order of preference.
pub open spec fn spec_cjk_font_candidates(os: TargetOs) -> Seq<Seq<char>> {
    match os {
        TargetOs::Windows => seq![
            "C:\\Windows\\Fonts\\msyh.ttc"@,
            "C:\\Windows\\Fonts\\msyhbd.ttc"@,
            "C:\\Windows\\Fonts\\simsun.ttc"@,
            "C:\\Windows\\Fonts\\SimHei.ttf"@,
            "C:\\Windows\\Fonts\\Deng.ttf"@,
        ],
        TargetOs::MacOs => seq![
            "/System/Library/Fonts/PingFang.ttc"@,
            "/System/Library/Fonts/STHeiti Light.ttc"@,
            "/System/Library/Fonts/AppleSDGothicNeo.ttc"@,
        ],
        TargetOs::Linux => seq![
            "/usr/share/fonts/opentype/noto/NotoSansCJK-Regular.ttc"@,
            "/usr/share/fonts/truetype/noto/NotoSansCJK-Regular.ttc"@,
            "/usr/share/fonts/opentype/noto/NotoSansSC-Regular.otf"@,
            "/usr/share/fonts/truetype/droid/DroidSansFallbackFull.ttf"@,
        ],
        TargetOs::Other => Seq::empty(),
    }
}

/// The system CJK font files looked for on an operating system, in order of preference.
pub fn cjk_font_candidates(os: TargetOs) -> (paths: Vec<&'static str>)
    ensures
        paths@.map_values(|p: &str| p@) == spec_cjk_font_candidates(os),
{
    let paths: Vec<&'static str> = match os {
        TargetOs::Windows => vec![
            "C:\\Windows\\Fonts\\msyh.ttc",
            "C:\\Windows\\Fonts\\msyhbd.ttc",
            "C:\\Windows\\Fonts\\simsun.ttc",
            "C:\\Windows\\Fonts\\SimHei.ttf",
            "C:\\Windows\\Fonts\\Deng.ttf",
        ],
        TargetOs::MacOs => vec![
            "/System/Library/Fonts/PingFang.ttc",
            "/System/Library/Fonts/STHeiti Light.ttc",
            "/System/Library/Fonts/AppleSDGothicNeo.ttc",
        ],
        TargetOs::Linux => vec![
            "/usr/share/fonts/opentype/noto/NotoSansCJK-Regular.ttc",
            "/usr/share/fonts/truetype/noto/NotoSansCJK-Regular.ttc",
            "/usr/share/fonts/opentype/noto/NotoSansSC-Regular.otf",
            "/usr/share/fonts/truetype/droid/DroidSansFallbackFull.ttf",
        ],
        TargetOs::Other => Vec::new(),
    };
    proof {
        assert(paths@.map_values(|p: &str| p@) =~= spec_cjk_font_candidates(os));
    }
    paths
}

} // verus!
