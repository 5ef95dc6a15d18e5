//! The command-line front end's own rules: device names, the options of a synthesis
//! and where each comes from, the default model and binary paths, and the setup scripts.

use vstd::prelude::*;
use crate::config::AppConfig;
use crate::platform::TargetOs;
use crate::qwentts_cli::{QwenTtsRequest, TtsParams};
use crate::text::{all_ascii, ascii_lower, spec_to_lowercase, str_equal, str_to_lowercase};

verus! {

/// A compute device the user can pick.
#[derive(PartialEq, Eq, Structural, Debug, Clone, Copy)]
pub enum Device {
    Auto,
    Cpu,
    Cuda0,
    Vulkan0,
    Metal,
}

/// The GGML backend name of a device; none for automatic selection.
pub open spec fn spec_backend_str(d: Device) -> Option<Seq<char>> {
    match d {
        Device::Auto => None,
        Device::Cpu => Some("CPU"@),
        Device::Cuda0 => Some("CUDA0"@),
        Device::Vulkan0 => Some("Vulkan0"@),
        Device::Metal => Some("Metal"@),
    }
}

impl Device {
    /// The GGML backend name of the device; none for automatic selection.
    pub fn backend_str(&self) -> (s: Option<&'static str>)
        ensures
            match s {
                Some(t) => spec_backend_str(*self) == Some(t@),
                None => spec_backend_str(*self) is None,
            },
    {
        match self {
            Device::Auto => None,
            Device::Cpu => Some("CPU"),
            Device::Cuda0 => Some("CUDA0"),
            Device::Vulkan0 => Some("Vulkan0"),
            Device::Metal => Some("Metal"),
        }
    }
}

/// The device a lowercase device name in the configuration stands for; anything else
/// means automatic selection.
pub open spec fn spec_device_of_lower(s: Seq<char>) -> Device {
    if s == "cpu"@ {
        Device::Cpu
    } else if s == "cuda0"@ {
        Device::Cuda0
    } else if s == "vulkan0"@ {
        Device::Vulkan0
    } else if s == "metal"@ {
        Device::Metal
    } else {
        Device::Auto
    }
}

/// The device a configured device name stands for, compared without regard to case.
pub open spec fn spec_device_from_config(s: Seq<char>) -> Device {
    spec_device_of_lower(spec_to_lowercase(s))
}

/// Reads the device named in the configuration.
pub fn device_from_config(name: &str) -> (d: Device)
    ensures
        d == spec_device_from_config(name@),
        all_ascii(name@) ==> d == spec_device_of_lower(ascii_lower(name@)),
{
    let lower = str_to_lowercase(name);
    let l = lower.as_str();
    if str_equal(l, "cpu") {
        Device::Cpu
    } else if str_equal(l, "cuda0") {
        Device::Cuda0
    } else if str_equal(l, "vulkan0") {
        Device::Vulkan0
    } else if str_equal(l, "metal") {
        Device::Metal
    } else {
        Device::Auto
    }
}

/// The backend name of every device other than automatic selection, read back as a
/// configured device name, gives that device again.
pub proof fn lemma_backend_name_round_trip(d: Device)
    requires
        d != Device::Auto,
    ensures
        all_ascii(spec_backend_str(d).unwrap()),
        spec_device_of_lower(ascii_lower(spec_backend_str(d).unwrap())) == d,
{
    reveal_strlit("CPU");
    reveal_strlit("cpu");
    reveal_strlit("CUDA0");
    reveal_strlit("cuda0");
    reveal_strlit("Vulkan0");
    reveal_strlit("vulkan0");
    reveal_strlit("Metal");
    reveal_strlit("metal");
    let name = spec_backend_str(d).unwrap();
    let lower = ascii_lower(name);
    match d {
        Device::Cpu => {
            assert(lower =~= "cpu"@);
        },
        Device::Cuda0 => {
            assert(lower =~= "cuda0"@);
            assert(lower.len() != "cpu"@.len());
        },
        Device::Vulkan0 => {
            assert(lower =~= "vulkan0"@);
            assert(lower.len() != "cpu"@.len());
            assert(lower.len() != "cuda0"@.len());
        },
        Device::Metal => {
            assert(lower =~= "metal"@);
            assert(lower.len() != "cpu"@.len());
            assert(lower[0] != "cuda0"@[0]);
            assert(lower.len() != "vulkan0"@.len());
        },
        Device::Auto => {},
    }
}

/// The backends qwentts.cpp can be built for.
#[derive(PartialEq, Eq, Structural, Debug, Clone, Copy)]
pub enum BuildTarget {
    Cpu,
    Cuda,
    Vulkan,
    Metal,
    All,
}

/// The lowercase name of a build target.
pub open spec fn spec_target_name(target: BuildTarget) -> Seq<char> {
    match target {
        BuildTarget::Cpu => "cpu"@,
        BuildTarget::Cuda => "cuda"@,
        BuildTarget::Vulkan => "vulkan"@,
        BuildTarget::Metal => "metal"@,
        BuildTarget::All => "all"@,
    }
}

impl BuildTarget {
    /// The lowercase name of the target.
    pub fn name(&self) -> (s: &'static str)
        ensures
            s@ == spec_target_name(*self),
    {
        match self {
            BuildTarget::Cpu => "cpu",
            BuildTarget::Cuda => "cuda",
            BuildTarget::Vulkan => "vulkan",
            BuildTarget::Metal => "metal",
            BuildTarget::All => "all",
        }
    }
}

/// The qwentts.cpp build script for a target on bash.
pub open spec fn spec_bash_build_script(target: BuildTarget) -> Seq<char> {
    match target {
        BuildTarget::Cpu => "./buildcpu.sh"@,
        BuildTarget::Cuda => "./buildcuda.sh"@,
        BuildTarget::Vulkan => "./buildvulkan.sh"@,
        BuildTarget::Metal => "./buildmetal.sh"@,
        BuildTarget::All => "./buildall.sh"@,
    }
}

/// The qwentts.cpp build script for a target on Windows.
pub open spec fn spec_powershell_build_script(target: BuildTarget) -> Seq<char> {
    match target {
        BuildTarget::Cpu => "./buildcpu.bat"@,
        BuildTarget::Cuda => "./buildcuda.bat"@,
        BuildTarget::Vulkan => "./buildvulkan.bat"@,
        BuildTarget::Metal => "./buildmetal.bat"@,
        BuildTarget::All => "./buildall.bat"@,
    }
}

fn bash_build_script(target: BuildTarget) -> (s: &'static str)
    ensures
        s@ == spec_bash_build_script(target),
{
    match target {
        BuildTarget::Cpu => "./buildcpu.sh",
        BuildTarget::Cuda => "./buildcuda.sh",
        BuildTarget::Vulkan => "./buildvulkan.sh",
        BuildTarget::Metal => "./buildmetal.sh",
        BuildTarget::All => "./buildall.sh",
    }
}

fn powershell_build_script(target: BuildTarget) -> (s: &'static str)
    ensures
        s@ == spec_powershell_build_script(target),
{
    match target {
        BuildTarget::Cpu => "./buildcpu.bat",
        BuildTarget::Cuda => "./buildcuda.bat",
        BuildTarget::Vulkan => "./buildvulkan.bat",
        BuildTarget::Metal => "./buildmetal.bat",
        BuildTarget::All => "./buildall.bat",
    }
}

/// The build script run for a target is `./build` followed by the target's name: with
/// `.sh` in the bash script and `.bat` in the PowerShell script; and no two targets share
/// a name.
pub proof fn lemma_build_script_named_after_target(target: BuildTarget, other: BuildTarget)
    ensures
        spec_bash_build_script(target) == "./build"@ + spec_target_name(target) + ".sh"@,
        spec_powershell_build_script(target) == "./build"@ + spec_target_name(target) + ".bat"@,
        target != other ==> spec_target_name(target) != spec_target_name(other),
{
    reveal_strlit("./build");
    reveal_strlit(".sh");
    reveal_strlit(".bat");
    reveal_strlit("cpu");
    reveal_strlit("cuda");
    reveal_strlit("vulkan");
    reveal_strlit("metal");
    reveal_strlit("all");
    reveal_strlit("./buildcpu.sh");
    reveal_strlit("./buildcuda.sh");
    reveal_strlit("./buildvulkan.sh");
    reveal_strlit("./buildmetal.sh");
    reveal_strlit("./buildall.sh");
    reveal_strlit("./buildcpu.bat");
    reveal_strlit("./buildcuda.bat");
    reveal_strlit("./buildvulkan.bat");
    reveal_strlit("./buildmetal.bat");
    reveal_strlit("./buildall.bat");
    assert(spec_bash_build_script(target) =~= "./build"@ + spec_target_name(target) + ".sh"@);
    assert(spec_powershell_build_script(target) =~= "./build"@ + spec_target_name(target) + ".bat"@);
    if target != other {
        let a = spec_target_name(target);
        let b = spec_target_name(other);
        if a.len() == b.len() {
            assert(a[0] != b[0] || a[1] != b[1]);
        }
    }
}

/// The CMake GGML backend flags of a target, each after a space: none for the CPU (ggml
/// detects it), CUDA, Vulkan or Metal for those, all three for `all`.
pub open spec fn spec_ggml_flags(target: BuildTarget) -> Seq<char> {
    match target {
        BuildTarget::Cpu => Seq::empty(),
        BuildTarget::Cuda => " -DGGML_CUDA=ON"@,
        BuildTarget::Vulkan => " -DGGML_VULKAN=ON"@,
        BuildTarget::Metal => " -DGGML_METAL=ON"@,
        BuildTarget::All => " -DGGML_CUDA=ON -DGGML_VULKAN=ON -DGGML_METAL=ON"@,
    }
}

fn ggml_flags(target: BuildTarget) -> (s: &'static str)
    ensures
        s@ == spec_ggml_flags(target),
{
    match target {
        BuildTarget::Cpu => {
            proof {
                reveal_strlit("");
            }
            ""
        },
        BuildTarget::Cuda => " -DGGML_CUDA=ON",
        BuildTarget::Vulkan => " -DGGML_VULKAN=ON",
        BuildTarget::Metal => " -DGGML_METAL=ON",
        BuildTarget::All => " -DGGML_CUDA=ON -DGGML_VULKAN=ON -DGGML_METAL=ON",
    }
}

/// The bash setup script (Linux / macOS / WSL): clone and build qwentts.cpp for the
/// target (with its build script, or with CMake and the target's backend flags), download
/// the models, list them and run a test synthesis.
pub open spec fn spec_setup_script_bash(target: BuildTarget) -> Seq<char> {
    "#!/usr/bin/env bash\nset -euo pipefail\n\n# ============================================================\n# Qwen3-TTS Rust App — Setup Script (bash)\n# ============================================================\n\necho \"=== Step 1: Clone qwentts.cpp ===\"\nif [ ! -d \"qwentts.cpp\" ]; then\n    git clone --recurse-submodules https://github.com/ServeurpersoCom/qwentts.cpp.git\nfi\ncd qwentts.cpp\ngit pull --recurse-submodules\n\necho \"=== Step 2: Build qwentts.cpp ("@
        + spec_target_name(target)
        + ") ===\"\nif [ -f \""@
        + spec_bash_build_script(target)
        + "\" ]; then\n    "@
        + spec_bash_build_script(target)
        + "\nelse\n    echo \"No build script found; using CMake directly...\"\n    mkdir -p build\n    cd build\n    cmake .. -DQWEN_SHARED=ON"@
        + spec_ggml_flags(target)
        + "\n    cmake --build . --config Release\n    cd ..\nfi\ncd ..\n\necho \"=== Step 3: Download GGUF models ===\"\ncargo run -- download --out-dir models\n\necho \"\"\necho \"=== Step 4: Verify ===\"\nls -lh models/*.gguf\n\necho \"\"\necho \"=== Step 5: Quick test ===\"\ncargo run --release -- synth \\\n  --text \"Hello from Qwen3 TTS.\" \\\n  --out test_output.wav \\\n  --device auto\n\necho \"\"\necho \"✅ Setup complete! Run 'cargo run -- synth --help' for more options.\"\n"@
}

/// Builds the bash setup script for a target.
pub fn setup_script_bash(target: BuildTarget) -> (script: String)
    ensures
        script@ == spec_setup_script_bash(target),
{
    let mut script = String::from_str("#!/usr/bin/env bash\nset -euo pipefail\n\n# ============================================================\n# Qwen3-TTS Rust App — Setup Script (bash)\n# ============================================================\n\necho \"=== Step 1: Clone qwentts.cpp ===\"\nif [ ! -d \"qwentts.cpp\" ]; then\n    git clone --recurse-submodules https://github.com/ServeurpersoCom/qwentts.cpp.git\nfi\ncd qwentts.cpp\ngit pull --recurse-submodules\n\necho \"=== Step 2: Build qwentts.cpp (");
    script.append(target.name());
    script.append(") ===\"\nif [ -f \"");
    script.append(bash_build_script(target));
    script.append("\" ]; then\n    ");
    script.append(bash_build_script(target));
    script.append(
        "\nelse\n    echo \"No build script found; using CMake directly...\"\n    mkdir -p build\n    cd build\n    cmake .. -DQWEN_SHARED=ON",
    );
    script.append(ggml_flags(target));
    script.append("\n    cmake --build . --config Release\n    cd ..\nfi\ncd ..\n\necho \"=== Step 3: Download GGUF models ===\"\ncargo run -- download --out-dir models\n\necho \"\"\necho \"=== Step 4: Verify ===\"\nls -lh models/*.gguf\n\necho \"\"\necho \"=== Step 5: Quick test ===\"\ncargo run --release -- synth \\\n  --text \"Hello from Qwen3 TTS.\" \\\n  --out test_output.wav \\\n  --device auto\n\necho \"\"\necho \"✅ Setup complete! Run 'cargo run -- synth --help' for more options.\"\n");
    script
}

/// The PowerShell setup script (Windows): clone and build qwentts.cpp for the target
/// (with its build script, or with CMake and the target's backend flags), download the
/// models, list them and run a test synthesis.
pub open spec fn spec_setup_script_powershell(target: BuildTarget) -> Seq<char> {
    "<#\n.SYNOPSIS\n    Qwen3-TTS Rust App — Setup Script (PowerShell)\n.DESCRIPTION\n    Builds qwentts.cpp, downloads GGUF models, and verifies the setup.\n#>\n\n$ErrorActionPreference = \"Stop\"\n\nWrite-Host \"=== Step 1: Clone qwentts.cpp ===\" -ForegroundColor Cyan\nif (-not (Test-Path \"qwentts.cpp\")) {\n    git clone --recurse-submodules https://github.com/ServeurpersoCom/qwentts.cpp.git\n}\nPush-Location qwentts.cpp\ngit pull --recurse-submodules\n\nWrite-Host \"=== Step 2: Build qwentts.cpp ("@
        + spec_target_name(target)
        + ") ===\" -ForegroundColor Cyan\n# On Windows, qwentts.cpp likely uses CMake directly:\n# mkdir build -Force | Out-Null\n# cd build\n# cmake .. -DGGML_CUDA=ON -DGGML_VULKAN=ON\n# cmake --build . --config Release\n# Or use the provided build script:\ncd ..\nif (Test-Path \"qwentts.cpp/"@
        + spec_powershell_build_script(target)
        + "\") {\n    & \"qwentts.cpp\\"@
        + spec_powershell_build_script(target)
        + "\"\n} else {\n    Write-Host \"No Windows build script found; using CMake directly...\" -ForegroundColor Yellow\n    Push-Location qwentts.cpp\n    New-Item -ItemType Directory -Path build -Force | Out-Null\n    Set-Location build\n    $ggml_flags = switch (\""@
        + spec_target_name(target)
        + "\") {\n        \"cuda\"   { \"-DGGML_CUDA=ON\" }\n        \"vulkan\" { \"-DGGML_VULKAN=ON\" }\n        \"metal\"  { \"-DGGML_METAL=ON\" }\n        \"all\"    { \"-DGGML_CUDA=ON -DGGML_VULKAN=ON -DGGML_METAL=ON\" }\n        default  { \"\" }\n    }\n    cmake .. -DQWEN_SHARED=ON $ggml_flags\n    cmake --build . --config Release\n    Pop-Location\n}\nPop-Location\n\nWrite-Host \"=== Step 3: Download GGUF models ===\" -ForegroundColor Cyan\ncargo run -- download --out-dir models\n\nWrite-Host \"`n=== Step 4: Verify ===\" -ForegroundColor Cyan\nGet-ChildItem models/*.gguf | ForEach-Object { Write-Host (\"  \" + $_.Name + \" (\" + [math]::Round($_.Length/1MB, 1) + \" MB)\") }\n\nWrite-Host \"`n=== Step 5: Quick test ===\" -ForegroundColor Cyan\ncargo run --release -- synth `\n  --text \"Hello from Qwen3 TTS on Windows.\" `\n  --out test_output.wav `\n  --device auto\n\nWrite-Host \"`n✅ Setup complete! Run 'cargo run -- synth --help' for more options.\" -ForegroundColor Green\n"@
}

/// Builds the PowerShell setup script for a target.
pub fn setup_script_powershell(target: BuildTarget) -> (script: String)
    ensures
        script@ == spec_setup_script_powershell(target),
{
    let mut script = String::from_str("<#\n.SYNOPSIS\n    Qwen3-TTS Rust App — Setup Script (PowerShell)\n.DESCRIPTION\n    Builds qwentts.cpp, downloads GGUF models, and verifies the setup.\n#>\n\n$ErrorActionPreference = \"Stop\"\n\nWrite-Host \"=== Step 1: Clone qwentts.cpp ===\" -ForegroundColor Cyan\nif (-not (Test-Path \"qwentts.cpp\")) {\n    git clone --recurse-submodules https://github.com/ServeurpersoCom/qwentts.cpp.git\n}\nPush-Location qwentts.cpp\ngit pull --recurse-submodules\n\nWrite-Host \"=== Step 2: Build qwentts.cpp (");
    script.append(target.name());
    script.append(") ===\" -ForegroundColor Cyan\n# On Windows, qwentts.cpp likely uses CMake directly:\n# mkdir build -Force | Out-Null\n# cd build\n# cmake .. -DGGML_CUDA=ON -DGGML_VULKAN=ON\n# cmake --build . --config Release\n# Or use the provided build script:\ncd ..\nif (Test-Path \"qwentts.cpp/");
    script.append(powershell_build_script(target));
    script.append("\") {\n    & \"qwentts.cpp\\");
    script.append(powershell_build_script(target));
    script.append("\"\n} else {\n    Write-Host \"No Windows build script found; using CMake directly...\" -ForegroundColor Yellow\n    Push-Location qwentts.cpp\n    New-Item -ItemType Directory -Path build -Force | Out-Null\n    Set-Location build\n    $ggml_flags = switch (\"");
    script.append(target.name());
    script.append("\") {\n        \"cuda\"   { \"-DGGML_CUDA=ON\" }\n        \"vulkan\" { \"-DGGML_VULKAN=ON\" }\n        \"metal\"  { \"-DGGML_METAL=ON\" }\n        \"all\"    { \"-DGGML_CUDA=ON -DGGML_VULKAN=ON -DGGML_METAL=ON\" }\n        default  { \"\" }\n    }\n    cmake .. -DQWEN_SHARED=ON $ggml_flags\n    cmake --build . --config Release\n    Pop-Location\n}\nPop-Location\n\nWrite-Host \"=== Step 3: Download GGUF models ===\" -ForegroundColor Cyan\ncargo run -- download --out-dir models\n\nWrite-Host \"`n=== Step 4: Verify ===\" -ForegroundColor Cyan\nGet-ChildItem models/*.gguf | ForEach-Object { Write-Host (\"  \" + $_.Name + \" (\" + [math]::Round($_.Length/1MB, 1) + \" MB)\") }\n\nWrite-Host \"`n=== Step 5: Quick test ===\" -ForegroundColor Cyan\ncargo run --release -- synth `\n  --text \"Hello from Qwen3 TTS on Windows.\" `\n  --out test_output.wav `\n  --device auto\n\nWrite-Host \"`n✅ Setup complete! Run 'cargo run -- synth --help' for more options.\" -ForegroundColor Green\n");
    script
}

/// The built-in talker model path.
pub open spec fn spec_default_talker() -> Seq<char> {
    "models/qwen-talker-1.7b-base-Q8_0.gguf"@
}

/// The built-in codec model path.
pub open spec fn spec_default_codec() -> Seq<char> {
    "models/qwen-tokenizer-12hz-Q8_0.gguf"@
}

/// Returns true if the given path matches one of the built-in default model paths.
pub fn is_default_model_path(path: &str) -> (r: bool)
    ensures
        r == (path@ == spec_default_talker() || path@ == spec_default_codec()),
{
    str_equal(path, "models/qwen-talker-1.7b-base-Q8_0.gguf") || str_equal(
        path,
        "models/qwen-tokenizer-12hz-Q8_0.gguf",
    )
}

/// The directory the default models are looked for in, given the parent directory of the
/// talker path: that parent when there is a non-empty one, else `models`.
pub open spec fn spec_models_dir(talker_parent: Option<Seq<char>>) -> Seq<char> {
    match talker_parent {
        Some(p) => if p.len() > 0 {
            p
        } else {
            "models"@
        },
        None => "models"@,
    }
}

/// Chooses the directory of the default models from the parent directory of the talker
/// path (as `Path::parent` gives it, `None` when there is none).
pub fn models_dir(talker_parent: Option<&str>) -> (dir: String)
    ensures
        dir@ == spec_models_dir(
            match talker_parent {
                Some(p) => Some(p@),
                None => None,
            },
        ),
{
    match talker_parent {
        Some(p) => {
            if p.is_empty() {
                String::from_str("models")
            } else {
                String::from_str(p)
            }
        },
        None => String::from_str("models"),
    }
}

/// Where CMake's Release configuration puts the binary on Windows.
pub open spec fn spec_windows_release_bin() -> Seq<char> {
    "qwentts.cpp/build/Release/qwen-tts.exe"@
}

/// Where a single-configuration build puts the binary on Windows.
pub open spec fn spec_windows_plain_bin() -> Seq<char> {
    "qwentts.cpp/build/qwen-tts.exe"@
}

/// Where the binary is elsewhere.
pub open spec fn spec_unix_bin() -> Seq<char> {
    "qwentts.cpp/build/qwen-tts"@
}

/// `file_exists` may answer `answer` about `path`.
pub open spec fn exists_answered<E: Fn(&str) -> bool>(file_exists: E, path: Seq<char>, answer: bool) -> bool {
    exists|p: &str| p@ == path && #[trigger] file_exists.ensures((p,), answer)
}

/// `bin` is the default binary path on `os` given what `file_exists` answered: on Windows
/// the Release build output when it exists, else the plain build output when that exists,
/// else the Release one; elsewhere the plain build output.
pub open spec fn default_bin_chosen<E: Fn(&str) -> bool>(os: TargetOs, file_exists: E, bin: Seq<char>) -> bool {
    if os == TargetOs::Windows {
        ||| bin == spec_windows_release_bin() && exists_answered(file_exists, spec_windows_release_bin(), true)
        ||| bin == spec_windows_plain_bin() && exists_answered(file_exists, spec_windows_release_bin(), false)
            && exists_answered(file_exists, spec_windows_plain_bin(), true)
        ||| bin == spec_windows_release_bin() && exists_answered(file_exists, spec_windows_release_bin(), false)
            && exists_answered(file_exists, spec_windows_plain_bin(), false)
    } else {
        bin == spec_unix_bin()
    }
}

/// Default qwen-tts binary path, aware of Windows CMake build output layout: on Windows the
/// first of the Release and the plain build output that `file_exists` confirms, else the
/// Release one; elsewhere the plain build output, without asking `file_exists`.
pub fn default_qwen_tts_bin<E>(os: TargetOs, file_exists: E) -> (bin: String)
    where
        E: Fn(&str) -> bool,
    requires
        forall|p: &str| #[trigger] file_exists.requires((p,)),
    ensures
        default_bin_chosen(os, file_exists, bin@),
{
    if os == TargetOs::Windows {
        let release: &str = "qwentts.cpp/build/Release/qwen-tts.exe";
        let plain: &str = "qwentts.cpp/build/qwen-tts.exe";
        let release_found = file_exists(release);
        proof {
            assert(file_exists.ensures((release,), release_found));
        }
        if release_found {
            return String::from_str(release);
        }
        let plain_found = file_exists(plain);
        proof {
            assert(file_exists.ensures((plain,), plain_found));
        }
        if plain_found {
            return String::from_str(plain);
        }
        String::from_str(release)
    } else {
        String::from_str("qwentts.cpp/build/qwen-tts")
    }
}

/// What the `synth` command line gives; unset options fall back to the configuration and
/// then to built-in defaults.
#[derive(Debug)]
pub struct SynthOptions {
    pub text: String,
    pub out: Option<String>,
    pub talker: Option<String>,
    pub codec: Option<String>,
    pub qwen_tts_bin: Option<String>,
    pub lang: Option<String>,
    pub speaker: Option<String>,
    pub instruct: Option<String>,
    pub ref_wav: Option<String>,
    pub ref_text: Option<String>,
    pub device: Option<Device>,
    pub n_gpu_layers: i32,
    pub tts_params: TtsParams,
}

/// How a `synth` command is carried out.
#[derive(Debug)]
pub struct SynthPlan {
    /// The request handed to the runner.
    pub request: QwenTtsRequest,
    /// The binary of the process runner.
    pub fallback_bin: String,
    /// Voice cloning is asked for, which only the process runner supports.
    pub process_only: bool,
    /// A model path is a built-in default one, so the default models are to be checked
    /// (and offered for download) first.
    pub check_default_models: bool,
}

/// The first of two optional texts that is set, else the fallback.
pub open spec fn spec_or(first: Option<String>, second: Seq<char>) -> Seq<char> {
    match first {
        Some(v) => v@,
        None => second,
    }
}

fn or_clone(first: Option<String>, second: &String) -> (r: String)
    ensures
        r@ == spec_or(first, second@),
{
    match first {
        Some(v) => v,
        None => second.clone(),
    }
}

fn or_default_path(first: Option<String>, second: &Option<String>, default: &str) -> (r: String)
    ensures
        r@ == spec_or(first, spec_or(*second, default@)),
{
    match first {
        Some(v) => v,
        None => match second {
            Some(v) => v.clone(),
            None => String::from_str(default),
        },
    }
}

/// The device a command line and a configuration select: the command line's, else the
/// configured one.
pub open spec fn spec_selected_device(opt: Option<Device>, cfg: AppConfig) -> Device {
    match opt {
        Some(d) => d,
        None => spec_device_from_config(cfg.device@),
    }
}

/// Resolves a `synth` command: each option comes from the command line when given, else
/// from the configuration, else from the built-in default (the default binary is looked
/// for only when neither names one).
pub fn plan_synth<E>(opts: SynthOptions, cfg: &AppConfig, os: TargetOs, file_exists: E) -> (plan: SynthPlan)
    where
        E: Fn(&str) -> bool,
    requires
        forall|p: &str| #[trigger] file_exists.requires((p,)),
    ensures
        plan.request.text@ == opts.text@,
        plan.request.out@ == spec_or(opts.out, cfg.output_dir@),
        plan.request.lang@ == spec_or(opts.lang, cfg.language@),
        plan.request.talker@ == spec_or(opts.talker, spec_or(cfg.talker, spec_default_talker())),
        plan.request.codec@ == spec_or(opts.codec, spec_or(cfg.codec, spec_default_codec())),
        plan.request.speaker == opts.speaker,
        plan.request.instruct == opts.instruct,
        plan.request.ref_wav == opts.ref_wav,
        plan.request.ref_text == opts.ref_text,
        match plan.request.ggml_backend {
            Some(b) => spec_backend_str(spec_selected_device(opts.device, *cfg)) == Some(b@),
            None => spec_backend_str(spec_selected_device(opts.device, *cfg)) is None,
        },
        plan.request.n_gpu_layers == opts.n_gpu_layers,
        plan.request.tts_params == opts.tts_params,
        plan.process_only == (opts.ref_wav is Some || opts.ref_text is Some),
        plan.check_default_models == (plan.request.talker@ == spec_default_talker()
            || plan.request.talker@ == spec_default_codec() || plan.request.codec@ == spec_default_talker()
            || plan.request.codec@ == spec_default_codec()),
        opts.talker is None && cfg.talker is None ==> plan.check_default_models,
        match (opts.qwen_tts_bin, cfg.qwen_tts_bin) {
            (Some(b), _) => plan.fallback_bin@ == b@,
            (None, Some(b)) => plan.fallback_bin@ == b@,
            (None, None) => default_bin_chosen(os, file_exists, plan.fallback_bin@),
        },
{
    let out = or_clone(opts.out, &cfg.output_dir);
    let lang = or_clone(opts.lang, &cfg.language);
    let device = match opts.device {
        Some(d) => d,
        None => device_from_config(cfg.device.as_str()),
    };
    let talker = or_default_path(opts.talker, &cfg.talker, "models/qwen-talker-1.7b-base-Q8_0.gguf");
    let codec = or_default_path(opts.codec, &cfg.codec, "models/qwen-tokenizer-12hz-Q8_0.gguf");
    let check_default_models = is_default_model_path(talker.as_str()) || is_default_model_path(codec.as_str());
    let process_only = opts.ref_wav.is_some() || opts.ref_text.is_some();
    let fallback_bin = match opts.qwen_tts_bin {
        Some(b) => b,
        None => match &cfg.qwen_tts_bin {
            Some(b) => b.clone(),
            None => default_qwen_tts_bin(os, file_exists),
        },
    };
    let ggml_backend = match device.backend_str() {
        Some(b) => Some(String::from_str(b)),
        None => None,
    };
    let request = QwenTtsRequest {
        text: opts.text,
        out,
        talker,
        codec,
        lang,
        speaker: opts.speaker,
        instruct: opts.instruct,
        ref_wav: opts.ref_wav,
        ref_text: opts.ref_text,
        ggml_backend,
        n_gpu_layers: opts.n_gpu_layers,
        tts_params: opts.tts_params,
    };
    SynthPlan { request, fallback_bin, process_only, check_default_models }
}

} // verus!
