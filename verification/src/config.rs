//! Application settings: built-in defaults and the defaults that fill fields a
//! configuration file leaves out.

use vstd::prelude::*;

verus! {

/// Settings of the application. Paths are held as the text of the path.
pub struct AppConfig {
    pub qwen_tts_bin: Option<String>,
    pub talker: Option<String>,
    pub codec: Option<String>,
    /// Default language for TTS
    pub language: String,
    /// Default device / backend
    pub device: String,
    /// Output directory for generated WAV files
    pub output_dir: String,
    /// Hugging Face repo for model downloads
    pub hf_repo: String,
}

pub open spec fn spec_default_lang() -> Seq<char> {
    "English"@
}

pub open spec fn spec_default_device() -> Seq<char> {
    "auto"@
}

pub open spec fn spec_default_output_dir() -> Seq<char> {
    "."@
}

pub open spec fn spec_default_repo() -> Seq<char> {
    "Serveurperso/Qwen3-TTS-GGUF"@
}

/// The language used when none is configured.
pub fn default_lang() -> (s: String)
    ensures
        s@ == spec_default_lang(),
{
    String::from_str("English")
}

/// The device used when none is configured.
pub fn default_device() -> (s: String)
    ensures
        s@ == spec_default_device(),
{
    String::from_str("auto")
}

/// The output directory used when none is configured.
pub fn default_output_dir() -> (s: String)
    ensures
        s@ == spec_default_output_dir(),
{
    String::from_str(".")
}

/// The Hugging Face repository used when none is configured.
pub fn default_repo() -> (s: String)
    ensures
        s@ == spec_default_repo(),
{
    String::from_str("Serveurperso/Qwen3-TTS-GGUF")
}

impl AppConfig {
    /// The settings of an application that was given no configuration.
    pub open spec fn spec_is_default(self) -> bool {
        &&& self.qwen_tts_bin is None
        &&& self.talker is None
        &&& self.codec is None
        &&& self.language@ == spec_default_lang()
        &&& self.device@ == spec_default_device()
        &&& self.output_dir@ == spec_default_output_dir()
        &&& self.hf_repo@ == spec_default_repo()
    }

    /// Settings from the fields a configuration file gives; a field the file leaves out
    /// takes its default (the three model paths stay unset).
    pub fn from_fields(
        qwen_tts_bin: Option<String>,
        talker: Option<String>,
        codec: Option<String>,
        language: Option<String>,
        device: Option<String>,
        output_dir: Option<String>,
        hf_repo: Option<String>,
    ) -> (cfg: AppConfig)
        ensures
            cfg.qwen_tts_bin == qwen_tts_bin,
            cfg.talker == talker,
            cfg.codec == codec,
            cfg.language@ == (match language {
                Some(l) => l@,
                None => spec_default_lang(),
            }),
            cfg.device@ == (match device {
                Some(d) => d@,
                None => spec_default_device(),
            }),
            cfg.output_dir@ == (match output_dir {
                Some(o) => o@,
                None => spec_default_output_dir(),
            }),
            cfg.hf_repo@ == (match hf_repo {
                Some(r) => r@,
                None => spec_default_repo(),
            }),
    {
        let language = match language {
            Some(l) => l,
            None => default_lang(),
        };
        let device = match device {
            Some(d) => d,
            None => default_device(),
        };
        let output_dir = match output_dir {
            Some(o) => o,
            None => default_output_dir(),
        };
        let hf_repo = match hf_repo {
            Some(r) => r,
            None => default_repo(),
        };
        AppConfig { qwen_tts_bin, talker, codec, language, device, output_dir, hf_repo }
    }
}

impl Default for AppConfig {
    fn default() -> (cfg: Self)
        ensures
            cfg.spec_is_default(),
    {
        AppConfig {
            qwen_tts_bin: None,
            talker: None,
            codec: None,
            language: default_lang(),
            device: default_device(),
            output_dir: default_output_dir(),
            hf_repo: default_repo(),
        }
    }
}

} // verus!
