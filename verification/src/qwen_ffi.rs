//! The rules around the qwentts.cpp shared library: its file name, its error codes and
//! messages, the ABI check, the argument checks before its C calls, the WAV encoding of
//! its audio, and the steps of a synthesis through it.

use vstd::prelude::*;
use crate::platform::TargetOs;
use crate::qwentts_cli::{OutputView, QwenTtsRequest, SynthesisOutput, TtsParams};
use crate::text::{i64_to_decimal, is_blank, spec_contains, spec_is_blank, spec_signed_decimal, str_contains};

verus! {

/// Status code returned by every fallible entry of the library.
#[derive(PartialEq, Eq, Structural, Debug, Clone, Copy)]
pub enum QtStatus {
    /// Success (`QT_OK`; shown as `Ok`).
    Success,
    InvalidParams,
    ModeInvalid,
    GenerateFailed,
    Oom,
    Cancelled,
}

/// Log severity.
#[derive(PartialEq, Eq, Structural, Debug, Clone, Copy)]
pub enum QtLogLevel {
    Debug,
    Info,
    Warn,
    Error,
}

impl QtStatus {
    /// The variant's name, as `{:?}` shows it.
    pub open spec fn spec_name(self) -> Seq<char> {
        match self {
            QtStatus::Success => "Ok"@,
            QtStatus::InvalidParams => "InvalidParams"@,
            QtStatus::ModeInvalid => "ModeInvalid"@,
            QtStatus::GenerateFailed => "GenerateFailed"@,
            QtStatus::Oom => "Oom"@,
            QtStatus::Cancelled => "Cancelled"@,
        }
    }

    /// The variant's name, as `{:?}` shows it.
    pub fn name(&self) -> (s: &'static str)
        ensures
            s@ == self.spec_name(),
    {
        match self {
            QtStatus::Success => "Ok",
            QtStatus::InvalidParams => "InvalidParams",
            QtStatus::ModeInvalid => "ModeInvalid",
            QtStatus::GenerateFailed => "GenerateFailed",
            QtStatus::Oom => "Oom",
            QtStatus::Cancelled => "Cancelled",
        }
    }
}

/// Errors that can occur when using the qwen shared library.
#[derive(Debug)]
pub enum QwenFfiError {
    /// DLL/shared library could not be loaded.
    LibraryNotFound(String),
    /// A required symbol was missing from the library (version mismatch).
    MissingSymbol(String),
    /// The library returned an error status.
    SynthesisFailed(QtStatus, String),
    /// Invalid parameters.
    InvalidParams(String),
}

impl QwenFfiError {
    /// The text that reports the error.
    pub open spec fn spec_message(self) -> Seq<char> {
        match self {
            QwenFfiError::LibraryNotFound(m) => "qwen library not found: "@ + m@,
            QwenFfiError::MissingSymbol(n) => "qwen library missing symbol: "@ + n@ + " (version mismatch?)"@,
            QwenFfiError::SynthesisFailed(status, m) => "qwen synthesis failed (code="@ + status.spec_name()
                + "): "@ + m@,
            QwenFfiError::InvalidParams(m) => "invalid parameters: "@ + m@,
        }
    }

    /// The text that reports the error.
    pub fn message(&self) -> (m: String)
        ensures
            m@ == self.spec_message(),
    {
        match self {
            QwenFfiError::LibraryNotFound(m) => {
                let mut s = String::from_str("qwen library not found: ");
                s.append(m.as_str());
                s
            },
            QwenFfiError::MissingSymbol(n) => {
                let mut s = String::from_str("qwen library missing symbol: ");
                s.append(n.as_str());
                s.append(" (version mismatch?)");
                s
            },
            QwenFfiError::SynthesisFailed(status, m) => {
                let mut s = String::from_str("qwen synthesis failed (code=");
                s.append(status.name());
                s.append("): ");
                s.append(m.as_str());
                s
            },
            QwenFfiError::InvalidParams(m) => {
                let mut s = String::from_str("invalid parameters: ");
                s.append(m.as_str());
                s
            },
        }
    }
}

/// Minimum required ABI version: the `backend` and `n_gpu_layers` initialisation fields
/// (ABI v3) are used.
pub const REQUIRED_ABI_VERSION: i32 = 3;

/// The library's ABI is recent enough, or the error that says it is too old.
pub open spec fn spec_check_abi(lib_abi: i32) -> Result<(), Seq<char>> {
    if lib_abi < REQUIRED_ABI_VERSION {
        Err("qwen.dll ABI v"@ + spec_signed_decimal(lib_abi as int) + " is too old; need v"@
            + spec_signed_decimal(REQUIRED_ABI_VERSION as int)
            + ". Rebuild qwentts.cpp with the latest source."@)
    } else {
        Ok(())
    }
}

/// Accepts the ABI version a library reports when it is at least the required one;
/// otherwise fails with an invalid-parameters status and a message naming both versions.
pub fn check_abi_version(lib_abi: i32) -> (r: Result<(), QwenFfiError>)
    ensures
        match (r, spec_check_abi(lib_abi)) {
            (Ok(()), Ok(())) => true,
            (Err(QwenFfiError::SynthesisFailed(QtStatus::InvalidParams, m)), Err(t)) => m@ == t,
            _ => false,
        },
{
    if lib_abi < REQUIRED_ABI_VERSION {
        let mut m = String::from_str("qwen.dll ABI v");
        let found = i64_to_decimal(lib_abi as i64);
        m.append(found.as_str());
        m.append(" is too old; need v");
        let required = i64_to_decimal(REQUIRED_ABI_VERSION as i64);
        m.append(required.as_str());
        m.append(". Rebuild qwentts.cpp with the latest source.");
        Err(QwenFfiError::SynthesisFailed(QtStatus::InvalidParams, m))
    } else {
        Ok(())
    }
}

/// The platform's file name of the qwen shared library.
pub open spec fn spec_lib_name(os: TargetOs) -> Seq<char> {
    match os {
        TargetOs::Windows => "qwen.dll"@,
        TargetOs::MacOs => "libqwen.dylib"@,
        _ => "libqwen.so"@,
    }
}

/// Platform-appropriate shared library filename.
pub fn lib_name(os: TargetOs) -> (name: &'static str)
    ensures
        name@ == spec_lib_name(os),
{
    match os {
        TargetOs::Windows => "qwen.dll",
        TargetOs::MacOs => "libqwen.dylib",
        _ => "libqwen.so",
    }
}

/// The two little-endian bytes of a 16-bit value.
pub open spec fn le16(v: u16) -> Seq<u8> {
    seq![(v % 256) as u8, (v / 256) as u8]
}

/// The four little-endian bytes of a 32-bit value.
pub open spec fn le32(v: u32) -> Seq<u8> {
    seq![(v % 256) as u8, ((v / 256) % 256) as u8, ((v / 65536) % 256) as u8, (v / 16777216) as u8]
}

/// The most samples a WAV file of 16-bit mono PCM can hold: its RIFF size field,
/// 36 plus two bytes per sample, must fit in 32 bits.
pub const MAX_WAV_SAMPLES: usize = 2147483629;

/// The 44-byte header of a 16-bit mono PCM WAV file of `n` samples at `sample_rate`.
pub open spec fn spec_wav_header(n: nat, sample_rate: u32) -> Seq<u8> {
    seq![0x52u8, 0x49u8, 0x46u8, 0x46u8] + le32((36 + 2 * n) as u32) + seq![0x57u8, 0x41u8, 0x56u8, 0x45u8]
        + seq![0x66u8, 0x6du8, 0x74u8, 0x20u8] + le32(16) + le16(1) + le16(1) + le32(sample_rate)
        + le32((sample_rate * 2) as u32) + le16(2) + le16(16) + seq![0x64u8, 0x61u8, 0x74u8, 0x61u8]
        + le32((2 * n) as u32)
}

/// The little-endian bytes of the samples, one after another.
pub open spec fn spec_sample_bytes(samples: Seq<i16>) -> Seq<u8>
    decreases samples.len(),
{
    if samples.len() == 0 {
        Seq::empty()
    } else {
        spec_sample_bytes(samples.drop_last()) + le16(samples.last() as u16)
    }
}

/// A 16-bit mono PCM WAV file holding `samples` at `sample_rate`.
pub open spec fn spec_wav(samples: Seq<i16>, sample_rate: u32) -> Seq<u8> {
    spec_wav_header(samples.len(), sample_rate) + spec_sample_bytes(samples)
}

fn push_le16(out: &mut Vec<u8>, v: u16)
    ensures
        final(out)@ == old(out)@ + le16(v),
{
    out.push((v % 256) as u8);
    out.push((v / 256) as u8);
    proof {
        assert(out@ =~= old(out)@ + le16(v));
    }
}

fn push_le32(out: &mut Vec<u8>, v: u32)
    ensures
        final(out)@ == old(out)@ + le32(v),
{
    out.push((v % 256) as u8);
    out.push(((v / 256) % 256) as u8);
    out.push(((v / 65536) % 256) as u8);
    out.push((v / 16777216) as u8);
    proof {
        assert(out@ =~= old(out)@ + le32(v));
    }
}

fn push_tag(out: &mut Vec<u8>, a: u8, b: u8, c: u8, d: u8)
    ensures
        final(out)@ == old(out)@ + seq![a, b, c, d],
{
    out.push(a);
    out.push(b);
    out.push(c);
    out.push(d);
    proof {
        assert(out@ =~= old(out)@ + seq![a, b, c, d]);
    }
}

/// Encodes 16-bit mono PCM samples as a WAV file: the RIFF/WAVE header with a 16-byte
/// `fmt ` chunk (PCM, one channel, `sample_rate`, 16 bits) and a `data` chunk with the
/// samples in little-endian order.
pub fn encode_wav_i16(samples: &Vec<i16>, sample_rate: u32) -> (wav: Vec<u8>)
    requires
        samples.len() <= MAX_WAV_SAMPLES,
        sample_rate <= 0x7fff_ffff,
    ensures
        wav@ == spec_wav(samples@, sample_rate),
{
    let n = samples.len();
    let data_size: u32 = (n * 2) as u32;
    let mut wav: Vec<u8> = Vec::new();
    push_tag(&mut wav, 0x52, 0x49, 0x46, 0x46);
    push_le32(&mut wav, 36 + data_size);
    push_tag(&mut wav, 0x57, 0x41, 0x56, 0x45);
    push_tag(&mut wav, 0x66, 0x6d, 0x74, 0x20);
    push_le32(&mut wav, 16);
    push_le16(&mut wav, 1);
    push_le16(&mut wav, 1);
    push_le32(&mut wav, sample_rate);
    push_le32(&mut wav, sample_rate * 2);
    push_le16(&mut wav, 2);
    push_le16(&mut wav, 16);
    push_tag(&mut wav, 0x64, 0x61, 0x74, 0x61);
    push_le32(&mut wav, data_size);
    let ghost header = wav@;
    assert(header =~= spec_wav_header(n as nat, sample_rate));
    let mut i: usize = 0;
    while i < n
        invariant
            n == samples.len(),
            i <= n,
            wav@ == header + spec_sample_bytes(samples@.take(i as int)),
        decreases n - i,
    {
        proof {
            assert(samples@.take(i + 1).drop_last() == samples@.take(i as int));
        }
        push_le16(&mut wav, samples[i] as u16);
        i = i + 1;
    }
    proof {
        assert(samples@.take(n as int) == samples@);
    }
    wav
}

proof fn lemma_sample_bytes(samples: Seq<i16>)
    ensures
        spec_sample_bytes(samples).len() == 2 * samples.len(),
        forall|i: int|
            0 <= i < samples.len() ==> spec_sample_bytes(samples)[2 * i] as int + 256
                * spec_sample_bytes(samples)[2 * i + 1] as int == #[trigger] samples[i] as u16 as int,
    decreases samples.len(),
{
    if samples.len() > 0 {
        let prev = samples.drop_last();
        lemma_sample_bytes(prev);
        let last = samples.last() as u16;
        assert forall|i: int|
            0 <= i < samples.len() implies spec_sample_bytes(samples)[2 * i] as int + 256
                * spec_sample_bytes(samples)[2 * i + 1] as int == #[trigger] samples[i] as u16 as int by {
            if i < prev.len() {
                assert(samples[i] == prev[i]);
            }
        }
    }
}

/// A WAV file is 44 header bytes plus two bytes per sample, its size fields say so, and
/// reading its data chunk back as little-endian 16-bit values gives the samples.
pub proof fn lemma_wav_layout(samples: Seq<i16>, sample_rate: u32)
    requires
        samples.len() <= MAX_WAV_SAMPLES,
    ensures
        spec_wav(samples, sample_rate).len() == 44 + 2 * samples.len(),
        spec_wav(samples, sample_rate).subrange(4, 8) == le32((36 + 2 * samples.len()) as u32),
        spec_wav(samples, sample_rate).subrange(40, 44) == le32((2 * samples.len()) as u32),
        forall|i: int|
            0 <= i < samples.len() ==> spec_wav(samples, sample_rate)[44 + 2 * i] as int + 256
                * spec_wav(samples, sample_rate)[45 + 2 * i] as int == #[trigger] samples[i] as u16 as int,
{
    lemma_sample_bytes(samples);
    let w = spec_wav(samples, sample_rate);
    let h = spec_wav_header(samples.len(), sample_rate);
    assert(h.len() == 44);
    assert(w.subrange(4, 8) =~= le32((36 + 2 * samples.len()) as u32));
    assert(w.subrange(40, 44) =~= le32((2 * samples.len()) as u32));
    assert forall|i: int|
        0 <= i < samples.len() implies w[44 + 2 * i] as int + 256 * w[45 + 2 * i] as int
            == #[trigger] samples[i] as u16 as int by {
        assert(w[44 + 2 * i] == spec_sample_bytes(samples)[2 * i]);
        assert(w[45 + 2 * i] == spec_sample_bytes(samples)[2 * i + 1]);
    }
}

/// The text holds a NUL character, which a C string cannot.
pub open spec fn spec_has_nul(s: Seq<char>) -> bool {
    spec_contains(s, seq!['\0'])
}

fn has_nul(s: &str) -> (r: bool)
    ensures
        r == spec_has_nul(s@),
{
    let nul: &str = "\0";
    proof {
        reveal_strlit("\0");
        assert(nul@ =~= seq!['\0']);
    }
    str_contains(s, nul)
}

/// The first of the named texts that holds a NUL character, if any.
pub open spec fn spec_first_nul(named: Seq<(Seq<char>, Option<Seq<char>>)>) -> Option<Seq<char>>
    decreases named.len(),
{
    if named.len() == 0 {
        None
    } else {
        match spec_first_nul(named.drop_last()) {
            Some(name) => Some(name),
            None => match named.last().1 {
                Some(t) => if spec_has_nul(t) {
                    Some(named.last().0)
                } else {
                    None
                },
                None => None,
            },
        }
    }
}

/// An optional text, as a view.
pub open spec fn opt_view(o: Option<String>) -> Option<Seq<char>> {
    match o {
        Some(s) => Some(s@),
        None => None,
    }
}

fn check_c_text(name: &str, value: &str) -> (r: Result<(), QwenFfiError>)
    ensures
        match r {
            Ok(()) => !spec_has_nul(value@),
            Err(QwenFfiError::InvalidParams(m)) => spec_has_nul(value@) && m@ == name@ + " contains null byte"@,
            _ => false,
        },
{
    if has_nul(value) {
        let mut m = String::from_str(name);
        m.append(" contains null byte");
        Err(QwenFfiError::InvalidParams(m))
    } else {
        Ok(())
    }
}

/// The result of checking named texts for NUL characters, in order: the first offender
/// is reported as invalid parameters.
pub open spec fn spec_nul_check(named: Seq<(Seq<char>, Option<Seq<char>>)>, r: Result<(), QwenFfiError>) -> bool {
    match (r, spec_first_nul(named)) {
        (Ok(()), None) => true,
        (Err(QwenFfiError::InvalidParams(m)), Some(name)) => m@ == name + " contains null byte"@,
        _ => false,
    }
}

/// The arguments of a context initialisation, named as the library names them.
pub open spec fn init_texts(talker_path: Seq<char>, codec_path: Seq<char>, backend: Option<Seq<char>>) -> Seq<
    (Seq<char>, Option<Seq<char>>),
> {
    seq![("talker_path"@, Some(talker_path)), ("codec_path"@, Some(codec_path)), ("backend"@, backend)]
}

/// Checks that the paths and backend handed to a context initialisation can be passed as
/// C strings (no NUL character), in the order the library receives them.
pub fn check_init_texts(talker_path: &str, codec_path: &str, backend: &Option<String>) -> (r: Result<
    (),
    QwenFfiError,
>)
    ensures
        spec_nul_check(init_texts(talker_path@, codec_path@, opt_view(*backend)), r),
{
    let ghost named = init_texts(talker_path@, codec_path@, opt_view(*backend));
    proof {
        reveal_with_fuel(spec_first_nul, 4);
        assert(named.drop_last() =~= seq![("talker_path"@, Some(talker_path@)), ("codec_path"@, Some(codec_path@))]);
        assert(named.drop_last().drop_last() =~= seq![("talker_path"@, Some(talker_path@))]);
        assert(named.drop_last().drop_last().drop_last() =~= Seq::<(Seq<char>, Option<Seq<char>>)>::empty());
    }
    match check_c_text("talker_path", talker_path) {
        Err(e) => return Err(e),
        Ok(()) => {},
    }
    match check_c_text("codec_path", codec_path) {
        Err(e) => return Err(e),
        Ok(()) => {},
    }
    match backend {
        Some(b) => check_c_text("backend", b.as_str()),
        None => Ok(()),
    }
}

/// The texts of a synthesis call, named as the library names them.
pub open spec fn tts_texts(
    text: Seq<char>,
    lang: Option<Seq<char>>,
    instruct: Option<Seq<char>>,
    speaker: Option<Seq<char>>,
) -> Seq<(Seq<char>, Option<Seq<char>>)> {
    seq![("text"@, Some(text)), ("lang"@, lang), ("instruct"@, instruct), ("speaker"@, speaker)]
}

fn check_opt_c_text(name: &str, value: &Option<String>) -> (r: Result<(), QwenFfiError>)
    ensures
        match r {
            Ok(()) => !(opt_view(*value) matches Some(t) && spec_has_nul(t)),
            Err(QwenFfiError::InvalidParams(m)) => opt_view(*value) matches Some(t) && spec_has_nul(t)
                && m@ == name@ + " contains null byte"@,
            _ => false,
        },
{
    match value {
        Some(v) => check_c_text(name, v.as_str()),
        None => Ok(()),
    }
}

/// Checks that the texts of a synthesis call can be passed as C strings (no NUL
/// character), in the order the library receives them.
pub fn check_tts_texts(
    text: &str,
    lang: &Option<String>,
    instruct: &Option<String>,
    speaker: &Option<String>,
) -> (r: Result<(), QwenFfiError>)
    ensures
        spec_nul_check(tts_texts(text@, opt_view(*lang), opt_view(*instruct), opt_view(*speaker)), r),
{
    let ghost named = tts_texts(text@, opt_view(*lang), opt_view(*instruct), opt_view(*speaker));
    proof {
        reveal_with_fuel(spec_first_nul, 5);
        assert(named.drop_last() =~= seq![("text"@, Some(text@)), ("lang"@, opt_view(*lang)), ("instruct"@, opt_view(*instruct))]);
        assert(named.drop_last().drop_last() =~= seq![("text"@, Some(text@)), ("lang"@, opt_view(*lang))]);
        assert(named.drop_last().drop_last().drop_last() =~= seq![("text"@, Some(text@))]);
        assert(named.drop_last().drop_last().drop_last().drop_last() =~= Seq::<
            (Seq<char>, Option<Seq<char>>),
        >::empty());
    }
    match check_c_text("text", text) {
        Err(e) => return Err(e),
        Ok(()) => {},
    }
    match check_opt_c_text("lang", lang) {
        Err(e) => return Err(e),
        Ok(()) => {},
    }
    match check_opt_c_text("instruct", instruct) {
        Err(e) => return Err(e),
        Ok(()) => {},
    }
    check_opt_c_text("speaker", speaker)
}

/// The sampling parameters a synthesis call uses: the given ones (their seed included),
/// else the defaults.
pub open spec fn spec_call_params(tts_params: Option<TtsParams>) -> TtsParams {
    match tts_params {
        Some(p) => p,
        None => TtsParams::spec_default(),
    }
}

/// Chooses the sampling parameters of a synthesis call: the given ones override
/// temperature, top-k, top-p, repetition penalty, seed and token limit; without them the
/// defaults apply.
pub fn call_params(tts_params: Option<TtsParams>) -> (p: TtsParams)
    ensures
        p == spec_call_params(tts_params),
{
    match tts_params {
        Some(p) => p,
        None => TtsParams::default(),
    }
}

/// The texts joined with `, ` between them.
pub open spec fn spec_join_comma(items: Seq<Seq<char>>) -> Seq<char>
    decreases items.len(),
{
    if items.len() == 0 {
        Seq::empty()
    } else if items.len() == 1 {
        items[0]
    } else {
        spec_join_comma(items.drop_last()) + ", "@ + items.last()
    }
}

/// The error for a library that was found at none of the searched paths; `last_error`
/// is how the last attempt failed, as shown for debugging.
pub fn library_not_found(paths: &Vec<String>, last_error: &str) -> (e: QwenFfiError)
    ensures
        e matches QwenFfiError::LibraryNotFound(m) && m@ == "tried paths: "@ + spec_join_comma(
            paths@.map_values(|p: String| p@),
        ) + ". Last error: "@ + last_error@,
{
    let mut m = String::from_str("tried paths: ");
    let ghost head = m@;
    let mut i: usize = 0;
    while i < paths.len()
        invariant
            i <= paths.len(),
            m@ == head + spec_join_comma(paths@.map_values(|p: String| p@).take(i as int)),
        decreases paths.len() - i,
    {
        proof {
            let all = paths@.map_values(|p: String| p@);
            assert(all.take(i + 1).drop_last() == all.take(i as int));
            if i == 0 {
                assert(all.take(1) =~= seq![all[0]]);
            }
        }
        if i > 0 {
            m.append(", ");
        }
        m.append(paths[i].as_str());
        i = i + 1;
    }
    proof {
        let all = paths@.map_values(|p: String| p@);
        assert(all.take(paths.len() as int) == all);
    }
    m.append(". Last error: ");
    m.append(last_error);
    QwenFfiError::LibraryNotFound(m)
}

/// The view of a library error.
pub enum QwenFfiErrorView {
    LibraryNotFound(Seq<char>),
    MissingSymbol(Seq<char>),
    SynthesisFailed(QtStatus, Seq<char>),
    InvalidParams(Seq<char>),
}

impl QwenFfiError {
    pub open spec fn view(self) -> QwenFfiErrorView {
        match self {
            QwenFfiError::LibraryNotFound(m) => QwenFfiErrorView::LibraryNotFound(m@),
            QwenFfiError::MissingSymbol(m) => QwenFfiErrorView::MissingSymbol(m@),
            QwenFfiError::SynthesisFailed(s, m) => QwenFfiErrorView::SynthesisFailed(s, m@),
            QwenFfiError::InvalidParams(m) => QwenFfiErrorView::InvalidParams(m@),
        }
    }
}

/// The arguments of a context initialisation.
#[derive(Debug)]
pub struct InitParams {
    pub talker_path: String,
    pub codec_path: String,
    pub use_fa: bool,
    pub clamp_fp16: bool,
    /// `None` lets the library choose.
    pub backend: Option<String>,
    /// -1 = all layers on the GPU, 0 = CPU only, N = the first N layers.
    pub n_gpu_layers: i32,
}

/// The view of initialisation arguments.
pub struct InitParamsView {
    pub talker_path: Seq<char>,
    pub codec_path: Seq<char>,
    pub use_fa: bool,
    pub clamp_fp16: bool,
    pub backend: Option<Seq<char>>,
    pub n_gpu_layers: i32,
}

impl InitParams {
    pub open spec fn view(self) -> InitParamsView {
        InitParamsView {
            talker_path: self.talker_path@,
            codec_path: self.codec_path@,
            use_fa: self.use_fa,
            clamp_fp16: self.clamp_fp16,
            backend: opt_view(self.backend),
            n_gpu_layers: self.n_gpu_layers,
        }
    }
}

/// The arguments of a buffered (non-streaming) synthesis call.
#[derive(Debug)]
pub struct TtsCall {
    pub text: String,
    pub lang: Option<String>,
    pub instruct: Option<String>,
    pub speaker: Option<String>,
    /// The sampling parameters, the seed among them.
    pub params: TtsParams,
}

/// The view of synthesis call arguments.
pub struct TtsCallView {
    pub text: Seq<char>,
    pub lang: Option<Seq<char>>,
    pub instruct: Option<Seq<char>>,
    pub speaker: Option<Seq<char>>,
    pub params: TtsParams,
}

impl TtsCall {
    pub open spec fn view(self) -> TtsCallView {
        TtsCallView {
            text: self.text@,
            lang: opt_view(self.lang),
            instruct: opt_view(self.instruct),
            speaker: opt_view(self.speaker),
            params: self.params,
        }
    }
}

/// Why a synthesis through the shared library failed.
#[derive(Debug)]
pub enum FfiRunError {
    /// The text holds nothing but white space.
    EmptyText,
    /// The talker GGUF is not at the given path.
    TalkerNotFound(String),
    /// The codec GGUF is not at the given path.
    CodecNotFound(String),
    /// The output directory could not be created; the text is why.
    OutputDir(String),
    /// The context could not be initialised.
    InitFailed(QwenFfiError),
    /// A library call failed.
    Library(QwenFfiError),
    /// The library produced no samples.
    NoAudio,
    /// The WAV file could not be written; the text is why.
    WriteFailed(String),
}

/// The view of a shared-library synthesis error.
pub enum FfiRunErrorView {
    EmptyText,
    TalkerNotFound(Seq<char>),
    CodecNotFound(Seq<char>),
    OutputDir(Seq<char>),
    InitFailed(QwenFfiErrorView),
    Library(QwenFfiErrorView),
    NoAudio,
    WriteFailed(Seq<char>),
}

impl FfiRunError {
    pub open spec fn view(self) -> FfiRunErrorView {
        match self {
            FfiRunError::EmptyText => FfiRunErrorView::EmptyText,
            FfiRunError::TalkerNotFound(p) => FfiRunErrorView::TalkerNotFound(p@),
            FfiRunError::CodecNotFound(p) => FfiRunErrorView::CodecNotFound(p@),
            FfiRunError::OutputDir(c) => FfiRunErrorView::OutputDir(c@),
            FfiRunError::InitFailed(e) => FfiRunErrorView::InitFailed(e.view()),
            FfiRunError::Library(e) => FfiRunErrorView::Library(e.view()),
            FfiRunError::NoAudio => FfiRunErrorView::NoAudio,
            FfiRunError::WriteFailed(c) => FfiRunErrorView::WriteFailed(c@),
        }
    }

    /// The text that reports the error.
    pub open spec fn spec_message(self) -> Seq<char> {
        match self {
            FfiRunError::EmptyText => "text input is empty"@,
            FfiRunError::TalkerNotFound(p) => "talker GGUF not found: "@ + p@,
            FfiRunError::CodecNotFound(p) => "codec GGUF not found: "@ + p@,
            FfiRunError::OutputDir(c) => c@,
            FfiRunError::InitFailed(e) => "qwen init failed: "@ + e.spec_message(),
            FfiRunError::Library(e) => e.spec_message(),
            FfiRunError::NoAudio => "qwen synthesis returned no audio data"@,
            FfiRunError::WriteFailed(c) => "failed to write WAV: "@ + c@,
        }
    }

    /// The text that reports the error.
    pub fn message(&self) -> (m: String)
        ensures
            m@ == self.spec_message(),
    {
        match self {
            FfiRunError::EmptyText => String::from_str("text input is empty"),
            FfiRunError::TalkerNotFound(p) => {
                let mut m = String::from_str("talker GGUF not found: ");
                m.append(p.as_str());
                m
            },
            FfiRunError::CodecNotFound(p) => {
                let mut m = String::from_str("codec GGUF not found: ");
                m.append(p.as_str());
                m
            },
            FfiRunError::OutputDir(c) => c.clone(),
            FfiRunError::InitFailed(e) => {
                let mut m = String::from_str("qwen init failed: ");
                let inner = e.message();
                m.append(inner.as_str());
                m
            },
            FfiRunError::Library(e) => e.message(),
            FfiRunError::NoAudio => String::from_str("qwen synthesis returned no audio data"),
            FfiRunError::WriteFailed(c) => {
                let mut m = String::from_str("failed to write WAV: ");
                m.append(c.as_str());
                m
            },
        }
    }
}

/// Where a synthesis through the shared library stands.
#[derive(PartialEq, Eq, Structural, Debug, Clone, Copy)]
pub enum FfiStage {
    /// Nothing has happened yet.
    Start,
    /// Waiting to learn whether the talker GGUF exists.
    CheckingTalker,
    /// Waiting to learn whether the codec GGUF exists.
    CheckingCodec,
    /// Waiting for the output directory to be created.
    PreparingOutputDir,
    /// Waiting for the context to be initialised.
    Initializing,
    /// Waiting for the library to synthesise.
    Synthesizing,
    /// Waiting for the WAV file to be written.
    Writing,
    /// The run is over.
    Finished,
}

/// What the caller reports back after performing an action.
#[derive(Debug)]
pub enum FfiEvent {
    /// The run starts.
    Begin,
    /// Whether the path asked about exists.
    Exists(bool),
    /// The output directory is ready, or could not be created (why).
    OutputDirReady(Result<(), String>),
    /// The context was initialised, or the library refused.
    Initialized(Result<(), QwenFfiError>),
    /// The samples the library produced, converted to 16-bit PCM, or the library's error.
    Synthesized(Result<Vec<i16>, QwenFfiError>),
    /// The WAV file was written, or could not be (why).
    Written(Result<(), String>),
}

/// What the caller is asked to do next.
#[derive(Debug)]
pub enum FfiAction {
    /// Tell whether this path exists.
    CheckExists(String),
    /// Create the parent directory of this output path, if it has a non-empty one.
    PrepareOutputDir(String),
    /// Initialise a context with these arguments.
    Init(InitParams),
    /// Synthesise with these arguments on the context.
    Synthesize(TtsCall),
    /// Write these bytes to this path.
    WriteFile(String, Vec<u8>),
    /// The run is over with this result; free the context first when told to.
    Finish(Result<SynthesisOutput, FfiRunError>, bool),
}

/// The view of an event.
pub enum FfiEventView {
    Begin,
    Exists(bool),
    OutputDirReady(Result<(), Seq<char>>),
    Initialized(Result<(), QwenFfiErrorView>),
    Synthesized(Result<Seq<i16>, QwenFfiErrorView>),
    Written(Result<(), Seq<char>>),
}

/// The view of an action.
pub enum FfiActionView {
    CheckExists(Seq<char>),
    PrepareOutputDir(Seq<char>),
    Init(InitParamsView),
    Synthesize(TtsCallView),
    WriteFile(Seq<char>, Seq<u8>),
    Finish(Result<OutputView, FfiRunErrorView>, bool),
}

impl FfiEvent {
    pub open spec fn view(self) -> FfiEventView {
        match self {
            FfiEvent::Begin => FfiEventView::Begin,
            FfiEvent::Exists(b) => FfiEventView::Exists(b),
            FfiEvent::OutputDirReady(r) => FfiEventView::OutputDirReady(
                match r {
                    Ok(()) => Ok(()),
                    Err(c) => Err(c@),
                },
            ),
            FfiEvent::Initialized(r) => FfiEventView::Initialized(
                match r {
                    Ok(()) => Ok(()),
                    Err(e) => Err(e.view()),
                },
            ),
            FfiEvent::Synthesized(r) => FfiEventView::Synthesized(
                match r {
                    Ok(s) => Ok(s@),
                    Err(e) => Err(e.view()),
                },
            ),
            FfiEvent::Written(r) => FfiEventView::Written(
                match r {
                    Ok(()) => Ok(()),
                    Err(c) => Err(c@),
                },
            ),
        }
    }
}

impl FfiAction {
    pub open spec fn view(self) -> FfiActionView {
        match self {
            FfiAction::CheckExists(p) => FfiActionView::CheckExists(p@),
            FfiAction::PrepareOutputDir(p) => FfiActionView::PrepareOutputDir(p@),
            FfiAction::Init(i) => FfiActionView::Init(i.view()),
            FfiAction::Synthesize(c) => FfiActionView::Synthesize(c.view()),
            FfiAction::WriteFile(p, b) => FfiActionView::WriteFile(p@, b@),
            FfiAction::Finish(r, free) => FfiActionView::Finish(
                match r {
                    Ok(o) => Ok(o.view()),
                    Err(e) => Err(e.view()),
                },
                free,
            ),
        }
    }
}

/// The sample rate of the library's audio.
pub const SAMPLE_RATE: u32 = 24000;

/// The event kinds each stage waits for (and a sample count a WAV file can hold).
pub open spec fn spec_ffi_accepts(stage: FfiStage, event: FfiEventView) -> bool {
    match stage {
        FfiStage::Start => event is Begin,
        FfiStage::CheckingTalker | FfiStage::CheckingCodec => event is Exists,
        FfiStage::PreparingOutputDir => event is OutputDirReady,
        FfiStage::Initializing => event is Initialized,
        FfiStage::Synthesizing => match event {
            FfiEventView::Synthesized(Ok(samples)) => samples.len() <= MAX_WAV_SAMPLES,
            FfiEventView::Synthesized(Err(_)) => true,
            _ => false,
        },
        FfiStage::Writing => event is Written,
        FfiStage::Finished => false,
    }
}

/// The initialisation a request asks for: flash attention on, no FP16 clamping, the
/// request's backend and GPU layer count.
pub open spec fn spec_init_params(req: QwenTtsRequest) -> InitParamsView {
    InitParamsView {
        talker_path: req.talker@,
        codec_path: req.codec@,
        use_fa: true,
        clamp_fp16: false,
        backend: opt_view(req.ggml_backend),
        n_gpu_layers: req.n_gpu_layers,
    }
}

/// The synthesis call a request asks for.
pub open spec fn spec_tts_call(req: QwenTtsRequest) -> TtsCallView {
    TtsCallView {
        text: req.text@,
        lang: Some(req.lang@),
        instruct: opt_view(req.instruct),
        speaker: opt_view(req.speaker),
        params: spec_call_params(Some(req.tts_params)),
    }
}

/// A finished run.
pub open spec fn ffi_finish(r: Result<OutputView, FfiRunErrorView>, free: bool) -> (FfiStage, FfiActionView) {
    (FfiStage::Finished, FfiActionView::Finish(r, free))
}

/// One step of a synthesis through the shared library: the stage it moves to and the
/// action it asks for. An event the stage does not wait for ends the run with no action.
pub open spec fn spec_ffi_step(req: QwenTtsRequest, stage: FfiStage, event: FfiEventView) -> (
    FfiStage,
    FfiActionView,
) {
    match (stage, event) {
        (FfiStage::Start, FfiEventView::Begin) => if spec_is_blank(req.text@) {
            ffi_finish(Err(FfiRunErrorView::EmptyText), false)
        } else {
            (FfiStage::CheckingTalker, FfiActionView::CheckExists(req.talker@))
        },
        (FfiStage::CheckingTalker, FfiEventView::Exists(found)) => if !found {
            ffi_finish(Err(FfiRunErrorView::TalkerNotFound(req.talker@)), false)
        } else {
            (FfiStage::CheckingCodec, FfiActionView::CheckExists(req.codec@))
        },
        (FfiStage::CheckingCodec, FfiEventView::Exists(found)) => if !found {
            ffi_finish(Err(FfiRunErrorView::CodecNotFound(req.codec@)), false)
        } else {
            (FfiStage::PreparingOutputDir, FfiActionView::PrepareOutputDir(req.out@))
        },
        (FfiStage::PreparingOutputDir, FfiEventView::OutputDirReady(r)) => match r {
            Err(cause) => ffi_finish(Err(FfiRunErrorView::OutputDir(cause)), false),
            Ok(()) => match spec_first_nul(
                init_texts(req.talker@, req.codec@, opt_view(req.ggml_backend)),
            ) {
                Some(name) => ffi_finish(
                    Err(
                        FfiRunErrorView::InitFailed(
                            QwenFfiErrorView::InvalidParams(name + " contains null byte"@),
                        ),
                    ),
                    false,
                ),
                None => (FfiStage::Initializing, FfiActionView::Init(spec_init_params(req))),
            },
        },
        (FfiStage::Initializing, FfiEventView::Initialized(r)) => match r {
            Err(e) => ffi_finish(Err(FfiRunErrorView::InitFailed(e)), false),
            Ok(()) => match spec_first_nul(
                tts_texts(req.text@, Some(req.lang@), opt_view(req.instruct), opt_view(req.speaker)),
            ) {
                Some(name) => ffi_finish(
                    Err(
                        FfiRunErrorView::Library(
                            QwenFfiErrorView::InvalidParams(name + " contains null byte"@),
                        ),
                    ),
                    true,
                ),
                None => (FfiStage::Synthesizing, FfiActionView::Synthesize(spec_tts_call(req))),
            },
        },
        (FfiStage::Synthesizing, FfiEventView::Synthesized(r)) => match r {
            Err(e) => ffi_finish(Err(FfiRunErrorView::Library(e)), true),
            Ok(samples) => if samples.len() == 0 {
                ffi_finish(Err(FfiRunErrorView::NoAudio), true)
            } else {
                (FfiStage::Writing, FfiActionView::WriteFile(req.out@, spec_wav(samples, SAMPLE_RATE)))
            },
        },
        (FfiStage::Writing, FfiEventView::Written(r)) => match r {
            Err(cause) => ffi_finish(Err(FfiRunErrorView::WriteFailed(cause)), true),
            Ok(()) => ffi_finish(Ok(OutputView::FileWritten(req.out@)), true),
        },
        _ => (FfiStage::Finished, FfiActionView::CheckExists(Seq::empty())),
    }
}

fn clone_opt(o: &Option<String>) -> (r: Option<String>)
    ensures
        opt_view(r) == opt_view(*o),
{
    match o {
        Some(s) => Some(s.clone()),
        None => None,
    }
}

/// Performs one step of a synthesis through the shared library (see `spec_ffi_step`).
pub fn ffi_step(req: &QwenTtsRequest, stage: FfiStage, event: FfiEvent) -> (r: (FfiStage, FfiAction))
    requires
        spec_ffi_accepts(stage, event.view()),
    ensures
        (r.0, r.1.view()) == spec_ffi_step(*req, stage, event.view()),
{
    match (stage, event) {
        (FfiStage::Start, FfiEvent::Begin) => {
            if is_blank(req.text.as_str()) {
                (FfiStage::Finished, FfiAction::Finish(Err(FfiRunError::EmptyText), false))
            } else {
                (FfiStage::CheckingTalker, FfiAction::CheckExists(req.talker.clone()))
            }
        },
        (FfiStage::CheckingTalker, FfiEvent::Exists(found)) => {
            if !found {
                (
                    FfiStage::Finished,
                    FfiAction::Finish(Err(FfiRunError::TalkerNotFound(req.talker.clone())), false),
                )
            } else {
                (FfiStage::CheckingCodec, FfiAction::CheckExists(req.codec.clone()))
            }
        },
        (FfiStage::CheckingCodec, FfiEvent::Exists(found)) => {
            if !found {
                (
                    FfiStage::Finished,
                    FfiAction::Finish(Err(FfiRunError::CodecNotFound(req.codec.clone())), false),
                )
            } else {
                (FfiStage::PreparingOutputDir, FfiAction::PrepareOutputDir(req.out.clone()))
            }
        },
        (FfiStage::PreparingOutputDir, FfiEvent::OutputDirReady(r)) => match r {
            Err(cause) => (FfiStage::Finished, FfiAction::Finish(Err(FfiRunError::OutputDir(cause)), false)),
            Ok(()) => match check_init_texts(req.talker.as_str(), req.codec.as_str(), &req.ggml_backend) {
                Err(e) => (FfiStage::Finished, FfiAction::Finish(Err(FfiRunError::InitFailed(e)), false)),
                Ok(()) => (
                    FfiStage::Initializing,
                    FfiAction::Init(
                        InitParams {
                            talker_path: req.talker.clone(),
                            codec_path: req.codec.clone(),
                            use_fa: true,
                            clamp_fp16: false,
                            backend: clone_opt(&req.ggml_backend),
                            n_gpu_layers: req.n_gpu_layers,
                        },
                    ),
                ),
            },
        },
        (FfiStage::Initializing, FfiEvent::Initialized(r)) => match r {
            Err(e) => (FfiStage::Finished, FfiAction::Finish(Err(FfiRunError::InitFailed(e)), false)),
            Ok(()) => {
                let lang = Some(req.lang.clone());
                match check_tts_texts(req.text.as_str(), &lang, &req.instruct, &req.speaker) {
                    Err(e) => (FfiStage::Finished, FfiAction::Finish(Err(FfiRunError::Library(e)), true)),
                    Ok(()) => (
                        FfiStage::Synthesizing,
                        FfiAction::Synthesize(
                            TtsCall {
                                text: req.text.clone(),
                                lang,
                                instruct: clone_opt(&req.instruct),
                                speaker: clone_opt(&req.speaker),
                                params: call_params(Some(req.tts_params)),
                            },
                        ),
                    ),
                }
            },
        },
        (FfiStage::Synthesizing, FfiEvent::Synthesized(r)) => match r {
            Err(e) => (FfiStage::Finished, FfiAction::Finish(Err(FfiRunError::Library(e)), true)),
            Ok(samples) => {
                if samples.len() == 0 {
                    (FfiStage::Finished, FfiAction::Finish(Err(FfiRunError::NoAudio), true))
                } else {
                    let wav = encode_wav_i16(&samples, SAMPLE_RATE);
                    (FfiStage::Writing, FfiAction::WriteFile(req.out.clone(), wav))
                }
            },
        },
        (FfiStage::Writing, FfiEvent::Written(r)) => match r {
            Err(cause) => (FfiStage::Finished, FfiAction::Finish(Err(FfiRunError::WriteFailed(cause)), true)),
            Ok(()) => (
                FfiStage::Finished,
                FfiAction::Finish(Ok(SynthesisOutput::FileWritten(req.out.clone())), true),
            ),
        },
        _ => (FfiStage::Finished, FfiAction::CheckExists(String::new())),
    }
}

/// The stage and the last action of a run through the shared library that has received
/// `events`, in order.
pub open spec fn spec_ffi_run(req: QwenTtsRequest, events: Seq<FfiEventView>) -> (FfiStage, FfiActionView)
    decreases events.len(),
{
    if events.len() == 0 {
        (FfiStage::Start, FfiActionView::CheckExists(Seq::empty()))
    } else {
        spec_ffi_step(req, spec_ffi_run(req, events.drop_last()).0, events.last())
    }
}

/// The stage a run through the shared library reaches after `k` events that each let it
/// go on.
pub open spec fn ffi_stage_after(k: int) -> FfiStage {
    if k == 0 {
        FfiStage::Start
    } else if k == 1 {
        FfiStage::CheckingTalker
    } else if k == 2 {
        FfiStage::CheckingCodec
    } else if k == 3 {
        FfiStage::PreparingOutputDir
    } else if k == 4 {
        FfiStage::Initializing
    } else if k == 5 {
        FfiStage::Synthesizing
    } else if k == 6 {
        FfiStage::Writing
    } else {
        FfiStage::Finished
    }
}

/// The `k`-th event lets a run through the shared library go on.
pub open spec fn ffi_event_goes_on(req: QwenTtsRequest, k: int, event: FfiEventView) -> bool {
    if k == 0 {
        event is Begin && !spec_is_blank(req.text@)
    } else if k == 1 || k == 2 {
        event == FfiEventView::Exists(true)
    } else if k == 3 {
        event matches FfiEventView::OutputDirReady(Ok(_)) && spec_first_nul(
            init_texts(req.talker@, req.codec@, opt_view(req.ggml_backend)),
        ) is None
    } else if k == 4 {
        event matches FfiEventView::Initialized(Ok(_)) && spec_first_nul(
            tts_texts(req.text@, Some(req.lang@), opt_view(req.instruct), opt_view(req.speaker)),
        ) is None
    } else if k == 5 {
        event matches FfiEventView::Synthesized(Ok(samples)) && samples.len() > 0
    } else {
        false
    }
}

/// Every event of `events` lets the run go on.
pub open spec fn ffi_all_go_on(req: QwenTtsRequest, events: Seq<FfiEventView>) -> bool {
    forall|k: int| 0 <= k < events.len() ==> ffi_event_goes_on(req, k, #[trigger] events[k])
}

proof fn lemma_ffi_step_shape(req: QwenTtsRequest, n: int, event: FfiEventView)
    requires
        0 <= n <= 6,
    ensures
        ({
            let (stage, action) = spec_ffi_step(req, ffi_stage_after(n), event);
            &&& stage != FfiStage::Finished ==> ffi_event_goes_on(req, n, event) && n + 1 <= 6
                && stage == ffi_stage_after(n + 1)
            &&& action matches FfiActionView::Finish(_, free) ==> (free <==> (n >= 5 || (n == 4
                && event matches FfiEventView::Initialized(Ok(_)))))
        }),
{
    if n == 0 {
    } else if n == 1 {
    } else if n == 2 {
    } else if n == 3 {
    } else if n == 4 {
    } else if n == 5 {
    } else {
    }
}

proof fn lemma_ffi_run_shape(req: QwenTtsRequest, events: Seq<FfiEventView>)
    ensures
        ({
            let (stage, action) = spec_ffi_run(req, events);
            &&& stage != FfiStage::Finished ==> ffi_all_go_on(req, events) && events.len() <= 6
                && stage == ffi_stage_after(events.len() as int)
            &&& action matches FfiActionView::Finish(_, free) ==> events.len() >= 1 && ffi_all_go_on(
                req,
                events.drop_last(),
            ) && (free <==> (events.len() >= 5 && events[4] matches FfiEventView::Initialized(Ok(_))))
        }),
    decreases events.len(),
{
    if events.len() > 0 {
        let prev = events.drop_last();
        lemma_ffi_run_shape(req, prev);
        let n = prev.len() as int;
        let e = events.last();
        assert forall|k: int| 0 <= k < n implies #[trigger] events[k] == prev[k] by {}
        let (ps, _) = spec_ffi_run(req, prev);
        if ps != FfiStage::Finished {
            lemma_ffi_step_shape(req, n, e);
            assert(events[n] == e);
            if n >= 5 {
                assert(ffi_event_goes_on(req, 4, prev[4]));
            }
        }
    }
}

/// A run through the shared library frees the library context when it ends exactly when
/// it created one: when the initialisation succeeded.
pub proof fn lemma_context_freed_iff_created(req: QwenTtsRequest, events: Seq<FfiEventView>)
    requires
        spec_ffi_run(req, events).1 is Finish,
    ensures
        ({
            let free = spec_ffi_run(req, events).1->Finish_1;
            free <==> exists|k: int|
                0 <= k < events.len() && #[trigger] events[k] matches FfiEventView::Initialized(Ok(_))
        }),
{
    lemma_ffi_run_shape(req, events);
    let free = spec_ffi_run(req, events).1->Finish_1;
    if free {
        assert(events[4] matches FfiEventView::Initialized(Ok(_)));
    } else {
        assert forall|k: int| 0 <= k < events.len() implies !(#[trigger] events[k] matches FfiEventView::Initialized(Ok(_))) by {
            if k < events.len() - 1 {
                assert(events.drop_last()[k] == events[k]);
                assert(ffi_event_goes_on(req, k, events.drop_last()[k]));
            }
        }
    }
}

/// A run through the shared library writes a file only with the WAV encoding of the
/// samples the library gave, and succeeds only after that file was written, reporting
/// the requested output path.
pub proof fn lemma_ffi_success_only_after_write(req: QwenTtsRequest, events: Seq<FfiEventView>)
    requires
        spec_ffi_run(req, events).1 matches FfiActionView::Finish(Ok(_), _),
    ensures
        events.len() == 7,
        events[5] matches FfiEventView::Synthesized(Ok(samples)) && samples.len() > 0
            && spec_ffi_run(req, events.drop_last()).1 == FfiActionView::WriteFile(
            req.out@,
            spec_wav(samples, SAMPLE_RATE),
        ),
        events[6] matches FfiEventView::Written(Ok(_)),
        spec_ffi_run(req, events).1 == FfiActionView::Finish(Ok(OutputView::FileWritten(req.out@)), true),
{
    lemma_ffi_run_shape(req, events);
    let prev = events.drop_last();
    lemma_ffi_run_shape(req, prev);
    let (ps, _) = spec_ffi_run(req, prev);
    if ps != FfiStage::Finished {
        lemma_ffi_step_shape(req, prev.len() as int, events.last());
    }
    assert(prev.len() == 6);
    assert(ffi_event_goes_on(req, 5, prev[5]));
    assert(events[5] == prev[5]);
    let pprev = prev.drop_last();
    lemma_ffi_run_shape(req, pprev);
}

/// Whatever the stage and the event, a synthesis call that a step asks for carries the
/// request's own text, language, instruction, speaker and sampling parameters (the seed
/// among them), and a context initialisation it asks for carries the request's talker and
/// codec paths, backend and GPU layer count, with flash attention on and no FP16 clamping.
/// Every call asked for in a whole run does so too.
pub proof fn lemma_calls_carry_the_request(req: QwenTtsRequest, stage: FfiStage, event: FfiEventView, events: Seq<
    FfiEventView,
>)
    ensures
        spec_ffi_step(req, stage, event).1 matches FfiActionView::Synthesize(c) ==> {
            &&& c.text == req.text@
            &&& c.lang == Some(req.lang@)
            &&& c.instruct == opt_view(req.instruct)
            &&& c.speaker == opt_view(req.speaker)
            &&& c.params == req.tts_params
            &&& c.params.seed == req.tts_params.seed
        },
        spec_ffi_step(req, stage, event).1 matches FfiActionView::Init(p) ==> {
            &&& p.talker_path == req.talker@
            &&& p.codec_path == req.codec@
            &&& p.use_fa
            &&& !p.clamp_fp16
            &&& p.backend == opt_view(req.ggml_backend)
            &&& p.n_gpu_layers == req.n_gpu_layers
        },
        spec_ffi_run(req, events).1 matches FfiActionView::Synthesize(c) ==> c.speaker == opt_view(req.speaker)
            && c.instruct == opt_view(req.instruct) && c.text == req.text@ && c.lang == Some(req.lang@)
            && c.params == req.tts_params,
        spec_first_nul(tts_texts(req.text@, Some(req.lang@), opt_view(req.instruct), opt_view(req.speaker)))
            is None ==> spec_ffi_step(req, FfiStage::Initializing, FfiEventView::Initialized(Ok(()))).1 is Synthesize,
    decreases events.len(),
{
    if events.len() > 0 {
        lemma_calls_carry_the_request(req, spec_ffi_run(req, events.drop_last()).0, events.last(), Seq::empty());
    }
}

} // verus!
