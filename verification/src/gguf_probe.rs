//! GGUF metadata inspection: the metadata a talker/codec pair carries, the keys worth
//! showing, the checks that the pair is a Qwen3-TTS pair, and the inspection report.

use vstd::prelude::*;
use crate::text::{spec_contains, spec_decimal, str_contains, str_equal, u64_to_decimal};

verus! {

/// Key metadata fields to extract from a GGUF file
pub const INTERESTING_KEYS: [&'static str; 23] = [
    "general.architecture",
    "general.name",
    "general.description",
    "general.size_label",
    "general.file_type",
    "general.alignment",
    "general.version",
    "llama.block_count",
    "llama.context_length",
    "llama.embedding_length",
    "llama.feed_forward_length",
    "llama.attention.head_count",
    "llama.attention.head_count_kv",
    "llama.rope.freq_base",
    "llama.rope.scaling.type",
    "tokenizer.ggml.model",
    "qwen3tts.type",
    "qwen3tts.audio.channels",
    "qwen3tts.audio.sample_rate",
    "qwen3tts.audio.codec_dim",
    "qwen3tts.talker.num_speakers",
    "qwen3tts.talker.speakers",
    "qwen3tts.codec.codebooks",
];

/// A metadata value of a GGUF file, as far as inspection reads it.
#[derive(Debug)]
pub enum MetaValue {
    Str(String),
    U32(u32),
    U64(u64),
    /// A 32-bit float, held as its display with four decimals.
    F32(String),
    Bool(bool),
    /// Any other type (signed, 8/16-bit, 64-bit float, array).
    Other,
}

/// The metadata of a GGUF file: at most one value per key.
pub struct GgufMetadata {
    entries: Vec<(String, MetaValue)>,
}

/// No two entries share a key.
pub open spec fn keys_distinct(entries: Seq<(String, MetaValue)>) -> bool {
    forall|i: int, j: int| 0 <= i < j < entries.len() ==> entries[i].0@ != entries[j].0@
}

/// The value stored under `key`, if any.
pub open spec fn spec_lookup(entries: Seq<(String, MetaValue)>, key: Seq<char>) -> Option<MetaValue>
    decreases entries.len(),
{
    if entries.len() == 0 {
        None
    } else if entries.last().0@ == key {
        Some(entries.last().1)
    } else {
        spec_lookup(entries.drop_last(), key)
    }
}

proof fn lemma_lookup_at(entries: Seq<(String, MetaValue)>, j: int, key: Seq<char>)
    requires
        keys_distinct(entries),
        0 <= j < entries.len(),
        entries[j].0@ == key,
    ensures
        spec_lookup(entries, key) == Some(entries[j].1),
    decreases entries.len(),
{
    if j < entries.len() - 1 {
        lemma_lookup_at(entries.drop_last(), j, key);
    }
}

proof fn lemma_lookup_absent(entries: Seq<(String, MetaValue)>, key: Seq<char>)
    requires
        forall|i: int| 0 <= i < entries.len() ==> (#[trigger] entries[i]).0@ != key,
    ensures
        spec_lookup(entries, key) is None,
    decreases entries.len(),
{
    if entries.len() > 0 {
        lemma_lookup_absent(entries.drop_last(), key);
    }
}

proof fn lemma_lookup_update(
    entries: Seq<(String, MetaValue)>,
    j: int,
    entry: (String, MetaValue),
    key: Seq<char>,
)
    requires
        0 <= j < entries.len(),
        entries[j].0@ == entry.0@,
        key != entry.0@,
    ensures
        spec_lookup(entries.update(j, entry), key) == spec_lookup(entries, key),
    decreases entries.len(),
{
    let updated = entries.update(j, entry);
    if j < entries.len() - 1 {
        assert(updated.drop_last() == entries.drop_last().update(j, entry));
        lemma_lookup_update(entries.drop_last(), j, entry, key);
    } else {
        assert(updated.drop_last() == entries.drop_last());
    }
}

impl GgufMetadata {
    /// The entries, in the order they were first inserted.
    pub closed spec fn spec_entries(self) -> Seq<(String, MetaValue)> {
        self.entries@
    }

    #[verifier::type_invariant]
    closed spec fn inv(self) -> bool {
        keys_distinct(self.entries@)
    }

    /// The value stored under `key`, if any.
    pub open spec fn spec_get(self, key: Seq<char>) -> Option<MetaValue> {
        spec_lookup(self.spec_entries(), key)
    }

    /// The number of metadata entries.
    pub open spec fn spec_len(self) -> nat {
        self.spec_entries().len()
    }

    /// Metadata without any entry.
    pub fn new() -> (m: Self)
        ensures
            m.spec_len() == 0,
            forall|k: Seq<char>| #[trigger] m.spec_get(k) is None,
    {
        GgufMetadata { entries: Vec::new() }
    }

    /// Stores `value` under `key`, replacing the value stored there before.
    pub fn insert(&mut self, key: String, value: MetaValue)
        ensures
            forall|k: Seq<char>|
                #[trigger] final(self).spec_get(k) == if k == key@ {
                    Some(value)
                } else {
                    old(self).spec_get(k)
                },
            final(self).spec_len() == old(self).spec_len() + if old(self).spec_get(key@) is Some {
                0nat
            } else {
                1nat
            },
    {
        proof {
            use_type_invariant(&*self);
        }
        let n = self.entries.len();
        let mut i: usize = 0;
        while i < n
            invariant
                n == self.entries.len(),
                *self == *old(self),
                i <= n,
                keys_distinct(self.entries@),
                forall|j: int| 0 <= j < i ==> (#[trigger] self.entries@[j]).0@ != key@,
            decreases n - i,
        {
            if str_equal(self.entries[i].0.as_str(), key.as_str()) {
                let ghost before = self.entries@;
                proof {
                    lemma_lookup_at(before, i as int, key@);
                }
                let entry = (key, value);
                let ghost e = entry;
                let mut entries = Vec::new();
                std::mem::swap(&mut entries, &mut self.entries);
                entries.set(i, entry);
                proof {
                    assert(entries@ == before.update(i as int, e));
                    assert(keys_distinct(entries@));
                    lemma_lookup_at(entries@, i as int, e.0@);
                    assert forall|k: Seq<char>| k != e.0@ implies spec_lookup(entries@, k) == spec_lookup(before, k) by {
                        lemma_lookup_update(before, i as int, e, k);
                    }
                }
                self.entries = entries;
                return;
            }
            i = i + 1;
        }
        proof {
            lemma_lookup_absent(self.entries@, key@);
        }
        let ghost before = self.entries@;
        let mut entries = Vec::new();
        std::mem::swap(&mut entries, &mut self.entries);
        entries.push((key, value));
        proof {
            assert(entries@.drop_last() == before);
        }
        self.entries = entries;
    }

    /// The value stored under `key`, if any.
    pub fn get(&self, key: &str) -> (r: Option<&MetaValue>)
        ensures
            match r {
                Some(v) => self.spec_get(key@) == Some(*v),
                None => self.spec_get(key@) is None,
            },
    {
        let mut i = self.entries.len();
        proof {
            assert(self.entries@.take(i as int) =~= self.entries@);
        }
        while i > 0
            invariant
                i <= self.entries.len(),
                spec_lookup(self.entries@, key@) == spec_lookup(self.entries@.take(i as int), key@),
            decreases i,
        {
            proof {
                assert(self.entries@.take(i as int).drop_last() == self.entries@.take(i - 1));
            }
            if str_equal(self.entries[i - 1].0.as_str(), key) {
                return Some(&self.entries[i - 1].1);
            }
            i = i - 1;
        }
        None
    }

    /// The string stored under `key`, if a string is stored there.
    pub fn get_string(&self, key: &str) -> (r: Option<&str>)
        ensures
            match r {
                Some(s) => self.spec_get(key@) matches Some(MetaValue::Str(t)) && t@ == s@,
                None => !(self.spec_get(key@) matches Some(MetaValue::Str(_))),
            },
    {
        match self.get(key) {
            Some(MetaValue::Str(s)) => Some(s.as_str()),
            _ => None,
        }
    }

    /// The 32-bit unsigned integer stored under `key`, if one is stored there.
    pub fn get_u32(&self, key: &str) -> (r: Option<u32>)
        ensures
            match r {
                Some(n) => self.spec_get(key@) == Some(MetaValue::U32(n)),
                None => !(self.spec_get(key@) matches Some(MetaValue::U32(_))),
            },
    {
        match self.get(key) {
            Some(MetaValue::U32(n)) => Some(*n),
            _ => None,
        }
    }

    /// The number of metadata entries.
    pub fn len(&self) -> (n: usize)
        ensures
            n == self.spec_len(),
    {
        self.entries.len()
    }
}

/// The interesting keys, as text.
pub open spec fn interesting_keys() -> Seq<Seq<char>> {
    INTERESTING_KEYS@.map_values(|k: &str| k@)
}

/// How inspection shows a value, if it shows values of its type at all.
pub open spec fn spec_value_text(v: MetaValue) -> Option<Seq<char>> {
    match v {
        MetaValue::Str(s) => Some(s@),
        MetaValue::U32(n) => Some(spec_decimal(n as nat)),
        MetaValue::U64(n) => Some(spec_decimal(n as nat)),
        MetaValue::F32(t) => Some(t@),
        MetaValue::Bool(b) => Some(if b { "true"@ } else { "false"@ }),
        MetaValue::Other => None,
    }
}

/// The (key, shown value) pairs of `meta` for `keys`, in the order of `keys`, skipping keys
/// without a value of a shown type.
pub open spec fn spec_extract(meta: GgufMetadata, keys: Seq<Seq<char>>) -> Seq<(Seq<char>, Seq<char>)>
    decreases keys.len(),
{
    if keys.len() == 0 {
        Seq::empty()
    } else {
        let earlier = spec_extract(meta, keys.drop_last());
        match meta.spec_get(keys.last()) {
            Some(v) => match spec_value_text(v) {
                Some(t) => earlier.push((keys.last(), t)),
                None => earlier,
            },
            None => earlier,
        }
    }
}

/// The text of a (key, value) pair list.
pub open spec fn pairs_view(pairs: Seq<(String, String)>) -> Seq<(Seq<char>, Seq<char>)> {
    pairs.map_values(|p: (String, String)| (p.0@, p.1@))
}

fn value_text(v: &MetaValue) -> (t: Option<String>)
    ensures
        match t {
            Some(s) => spec_value_text(*v) == Some(s@),
            None => spec_value_text(*v) is None,
        },
{
    match v {
        MetaValue::Str(s) => Some(s.clone()),
        MetaValue::U32(n) => Some(u64_to_decimal(*n as u64)),
        MetaValue::U64(n) => Some(u64_to_decimal(*n)),
        MetaValue::F32(t) => Some(t.clone()),
        MetaValue::Bool(b) => Some(if *b { String::from_str("true") } else { String::from_str("false") }),
        MetaValue::Other => None,
    }
}

/// The interesting keys that `meta` holds a shown value for, each with its value as text.
pub fn extract_metadata(meta: &GgufMetadata) -> (pairs: Vec<(String, String)>)
    ensures
        pairs_view(pairs@) == spec_extract(*meta, interesting_keys()),
{
    let keys = INTERESTING_KEYS;
    let mut pairs: Vec<(String, String)> = Vec::new();
    let mut i: usize = 0;
    while i < keys.len()
        invariant
            keys == INTERESTING_KEYS,
            i <= keys.len(),
            pairs_view(pairs@) == spec_extract(*meta, interesting_keys().take(i as int)),
        decreases keys.len() - i,
    {
        let key = keys[i];
        proof {
            assert(interesting_keys().take(i + 1).drop_last() == interesting_keys().take(i as int));
            assert(interesting_keys()[i as int] == key@);
        }
        match meta.get(key) {
            Some(v) => match value_text(v) {
                Some(t) => {
                    let ghost before = pairs@;
                    pairs.push((String::from_str(key), t));
                    proof {
                        assert(pairs_view(pairs@) == pairs_view(before).push((key@, t@)));
                    }
                },
                None => {},
            },
            None => {},
        }
        i = i + 1;
    }
    proof {
        assert(interesting_keys().take(keys.len() as int) == interesting_keys());
    }
    pairs
}

/// What the inspection concluded about one model file.
#[derive(PartialEq, Eq, Structural, Debug, Clone, Copy)]
pub enum ModelCheck {
    /// The architecture fits and the TTS metadata is there.
    Confirmed,
    /// The architecture fits but the TTS metadata is missing.
    MissingTtsKeys,
    /// The architecture does not fit.
    Unexpected,
}

/// The architecture a file declares, or `unknown`.
pub open spec fn spec_architecture(meta: GgufMetadata) -> Seq<char> {
    match meta.spec_get("general.architecture"@) {
        Some(MetaValue::Str(s)) => s@,
        _ => "unknown"@,
    }
}

/// A string is stored under `key`.
pub open spec fn spec_has_string(meta: GgufMetadata, key: Seq<char>) -> bool {
    meta.spec_get(key) matches Some(MetaValue::Str(_))
}

/// A 32-bit unsigned integer is stored under `key`.
pub open spec fn spec_has_u32(meta: GgufMetadata, key: Seq<char>) -> bool {
    meta.spec_get(key) matches Some(MetaValue::U32(_))
}

/// The talker carries Qwen3-TTS metadata.
pub open spec fn spec_talker_has_tts_keys(meta: GgufMetadata) -> bool {
    spec_has_string(meta, "qwen3tts.type"@) || spec_has_u32(meta, "qwen3tts.talker.num_speakers"@)
        || spec_has_u32(meta, "qwen3tts.audio.channels"@)
}

/// The codec carries Qwen3-TTS codec metadata.
pub open spec fn spec_codec_has_codec_keys(meta: GgufMetadata) -> bool {
    spec_has_string(meta, "qwen3tts.type"@) || spec_has_u32(meta, "qwen3tts.codec.codebooks"@)
        || spec_has_u32(meta, "qwen3tts.audio.codec_dim"@)
}

/// The verdict on a talker file.
pub open spec fn spec_check_talker(meta: GgufMetadata) -> ModelCheck {
    if spec_contains(spec_architecture(meta), "qwen3"@) {
        if spec_talker_has_tts_keys(meta) {
            ModelCheck::Confirmed
        } else {
            ModelCheck::MissingTtsKeys
        }
    } else {
        ModelCheck::Unexpected
    }
}

/// The verdict on a codec file.
pub open spec fn spec_check_codec(meta: GgufMetadata) -> ModelCheck {
    let arch = spec_architecture(meta);
    if spec_contains(arch, "qwen3"@) || spec_contains(arch, "audio"@) || spec_contains(arch, "codec"@) {
        if spec_codec_has_codec_keys(meta) {
            ModelCheck::Confirmed
        } else {
            ModelCheck::MissingTtsKeys
        }
    } else {
        ModelCheck::Unexpected
    }
}

/// The architecture a file declares, or `unknown`.
pub fn architecture(meta: &GgufMetadata) -> (arch: String)
    ensures
        arch@ == spec_architecture(*meta),
{
    match meta.get_string("general.architecture") {
        Some(s) => String::from_str(s),
        None => String::from_str("unknown"),
    }
}

/// Checks a talker file: a Qwen3 architecture with TTS metadata.
pub fn check_talker(meta: &GgufMetadata) -> (c: ModelCheck)
    ensures
        c == spec_check_talker(*meta),
{
    let arch = architecture(meta);
    let has_keys = meta.get_string("qwen3tts.type").is_some()
        || meta.get_u32("qwen3tts.talker.num_speakers").is_some()
        || meta.get_u32("qwen3tts.audio.channels").is_some();
    if str_contains(arch.as_str(), "qwen3") {
        if has_keys {
            ModelCheck::Confirmed
        } else {
            ModelCheck::MissingTtsKeys
        }
    } else {
        ModelCheck::Unexpected
    }
}

/// Checks a codec file: a Qwen3, audio or codec architecture with codec metadata.
pub fn check_codec(meta: &GgufMetadata) -> (c: ModelCheck)
    ensures
        c == spec_check_codec(*meta),
{
    let arch = architecture(meta);
    let has_keys = meta.get_string("qwen3tts.type").is_some()
        || meta.get_u32("qwen3tts.codec.codebooks").is_some()
        || meta.get_u32("qwen3tts.audio.codec_dim").is_some();
    if str_contains(arch.as_str(), "qwen3") || str_contains(arch.as_str(), "audio") || str_contains(
        arch.as_str(),
        "codec",
    ) {
        if has_keys {
            ModelCheck::Confirmed
        } else {
            ModelCheck::MissingTtsKeys
        }
    } else {
        ModelCheck::Unexpected
    }
}

/// One `  key: value` line per pair.
pub open spec fn spec_meta_lines(pairs: Seq<(Seq<char>, Seq<char>)>) -> Seq<char>
    decreases pairs.len(),
{
    if pairs.len() == 0 {
        Seq::empty()
    } else {
        spec_meta_lines(pairs.drop_last()) + "  "@ + pairs.last().0 + ": "@ + pairs.last().1 + "\n"@
    }
}

/// The report section of one file: its title, path, shown metadata and entry count.
pub open spec fn spec_section(title: Seq<char>, path: Seq<char>, meta: GgufMetadata) -> Seq<char> {
    let pairs = spec_extract(meta, interesting_keys());
    title + "\n  Path: "@ + path + "\n"@ + (if pairs.len() == 0 {
        "  (no recognized metadata keys)\n"@
    } else {
        spec_meta_lines(pairs)
    }) + "\n  Metadata entries: "@ + spec_decimal(meta.spec_len()) + "\n"@
}

/// The verdict line(s) on the talker.
pub open spec fn spec_talker_verdict_text(meta: GgufMetadata) -> Seq<char> {
    let arch = spec_architecture(meta);
    match spec_check_talker(meta) {
        ModelCheck::Confirmed => "  ✅ Talker architecture '"@ + arch
            + "' with TTS metadata — confirmed Qwen3-TTS.\n"@,
        ModelCheck::MissingTtsKeys => "  ⚠ Talker architecture '"@ + arch
            + "' but no TTS metadata keys found.\n⚠ This may be a plain Qwen3 LLM GGUF, not a TTS model.\n"@,
        ModelCheck::Unexpected => "  ⚠ Talker architecture '"@ + arch + "' — may not be Qwen3-TTS.\n"@,
    }
}

/// The verdict line(s) on the codec.
pub open spec fn spec_codec_verdict_text(meta: GgufMetadata) -> Seq<char> {
    let arch = spec_architecture(meta);
    match spec_check_codec(meta) {
        ModelCheck::Confirmed => "  ✅ Codec architecture '"@ + arch
            + "' with codec metadata — confirmed TTS codec.\n"@,
        ModelCheck::MissingTtsKeys => "  ⚠ Codec architecture '"@ + arch
            + "' but no TTS codec metadata keys found.\n⚠ This may be a plain Qwen3 LLM GGUF or a non-TTS audio model.\n"@,
        ModelCheck::Unexpected => "  ⚠ Codec architecture '"@ + arch + "' — may not be correct.\n"@,
    }
}

/// The line naming a file's TTS type, when it declares one.
pub open spec fn spec_type_line(label: Seq<char>, meta: GgufMetadata) -> Seq<char> {
    match meta.spec_get("qwen3tts.type"@) {
        Some(MetaValue::Str(t)) => label + t@ + "\n"@,
        _ => Seq::empty(),
    }
}

/// The inspection report of a talker/codec pair.
pub open spec fn spec_inspect_report(
    backend: Seq<char>,
    talker_path: Seq<char>,
    codec_path: Seq<char>,
    talker: GgufMetadata,
    codec: GgufMetadata,
) -> Seq<char> {
    "═══════════════════════════════════════════\nGGUF Metadata Inspection\nBackend: "@ + backend + "\n═══════════════════════════════════════════\n\n"@
        + spec_section("── Talker ──────────────────────────────"@, talker_path, talker) + "\n"@
        + spec_section("── Codec ───────────────────────────────"@, codec_path, codec)
        + "\n── Validation ───────────────────────────\n"@
        + spec_talker_verdict_text(talker) + spec_codec_verdict_text(codec)
        + spec_type_line("  ℹ Talker TTS type: "@, talker)
        + spec_type_line("  ℹ Codec TTS type: "@, codec)
}

fn push_section(out: &mut String, title: &str, path: &str, meta: &GgufMetadata)
    ensures
        final(out)@ == old(out)@ + spec_section(title@, path@, *meta),
{
    let ghost start = out@;
    out.append(title);
    out.append("\n  Path: ");
    out.append(path);
    out.append("\n");
    let ghost head = out@;
    let pairs = extract_metadata(meta);
    if pairs.len() == 0 {
        out.append("  (no recognized metadata keys)\n");
    } else {
        let mut i: usize = 0;
        while i < pairs.len()
            invariant
                i <= pairs.len(),
                out@ == head + spec_meta_lines(pairs_view(pairs@).take(i as int)),
            decreases pairs.len() - i,
        {
            proof {
                assert(pairs_view(pairs@).take(i + 1).drop_last() == pairs_view(pairs@).take(i as int));
            }
            out.append("  ");
            out.append(pairs[i].0.as_str());
            out.append(": ");
            out.append(pairs[i].1.as_str());
            out.append("\n");
            i = i + 1;
        }
        proof {
            assert(pairs_view(pairs@).take(pairs.len() as int) == pairs_view(pairs@));
        }
    }
    out.append("\n  Metadata entries: ");
    let count = u64_to_decimal(meta.len() as u64);
    out.append(count.as_str());
    out.append("\n");
}

fn push_type_line(out: &mut String, label: &str, meta: &GgufMetadata)
    ensures
        final(out)@ == old(out)@ + spec_type_line(label@, *meta),
{
    match meta.get_string("qwen3tts.type") {
        Some(t) => {
            out.append(label);
            out.append(t);
            out.append("\n");
        },
        None => {},
    }
}

fn push_talker_verdict(out: &mut String, meta: &GgufMetadata)
    ensures
        final(out)@ == old(out)@ + spec_talker_verdict_text(*meta),
{
    let arch = architecture(meta);
    match check_talker(meta) {
        ModelCheck::Confirmed => {
            out.append("  ✅ Talker architecture '");
            out.append(arch.as_str());
            out.append("' with TTS metadata — confirmed Qwen3-TTS.\n");
        },
        ModelCheck::MissingTtsKeys => {
            out.append("  ⚠ Talker architecture '");
            out.append(arch.as_str());
            out.append("' but no TTS metadata keys found.\n⚠ This may be a plain Qwen3 LLM GGUF, not a TTS model.\n");
        },
        ModelCheck::Unexpected => {
            out.append("  ⚠ Talker architecture '");
            out.append(arch.as_str());
            out.append("' — may not be Qwen3-TTS.\n");
        },
    }
}

fn push_codec_verdict(out: &mut String, meta: &GgufMetadata)
    ensures
        final(out)@ == old(out)@ + spec_codec_verdict_text(*meta),
{
    let arch = architecture(meta);
    match check_codec(meta) {
        ModelCheck::Confirmed => {
            out.append("  ✅ Codec architecture '");
            out.append(arch.as_str());
            out.append("' with codec metadata — confirmed TTS codec.\n");
        },
        ModelCheck::MissingTtsKeys => {
            out.append("  ⚠ Codec architecture '");
            out.append(arch.as_str());
            out.append("' but no TTS codec metadata keys found.\n⚠ This may be a plain Qwen3 LLM GGUF or a non-TTS audio model.\n");
        },
        ModelCheck::Unexpected => {
            out.append("  ⚠ Codec architecture '");
            out.append(arch.as_str());
            out.append("' — may not be correct.\n");
        },
    }
}

/// Builds the inspection report of a talker/codec pair: the backend, each file's path
/// and shown metadata, and the verdicts on both files.
pub fn inspect_report(
    backend: &str,
    talker_path: &str,
    codec_path: &str,
    talker: &GgufMetadata,
    codec: &GgufMetadata,
) -> (report: String)
    ensures
        report@ == spec_inspect_report(backend@, talker_path@, codec_path@, *talker, *codec),
{
    let mut out = String::from_str("═══════════════════════════════════════════\nGGUF Metadata Inspection\nBackend: ");
    out.append(backend);
    out.append("\n═══════════════════════════════════════════\n\n");
    push_section(&mut out, "── Talker ──────────────────────────────", talker_path, talker);
    out.append("\n");
    push_section(&mut out, "── Codec ───────────────────────────────", codec_path, codec);
    out.append("\n── Validation ───────────────────────────\n");
    push_talker_verdict(&mut out, talker);
    push_codec_verdict(&mut out, codec);
    push_type_line(&mut out, "  ℹ Talker TTS type: ", talker);
    push_type_line(&mut out, "  ℹ Codec TTS type: ", codec);
    out
}

/// The line of a report section that counts a file's metadata entries.
pub open spec fn entries_line(meta: GgufMetadata) -> Seq<char> {
    "\n  Metadata entries: "@ + spec_decimal(meta.spec_len()) + "\n"@
}

/// Each section of an inspection report ends with the count of all metadata entries of
/// its file (not only of the keys it shows).
pub proof fn lemma_section_counts_all_entries(title: Seq<char>, path: Seq<char>, meta: GgufMetadata)
    ensures
        ({
            let section = spec_section(title, path, meta);
            let line = entries_line(meta);
            &&& section.len() >= line.len()
            &&& section.subrange(section.len() - line.len(), section.len() as int) == line
        }),
{
    let pairs = spec_extract(meta, interesting_keys());
    let head = title + "\n  Path: "@ + path + "\n"@ + (if pairs.len() == 0 {
        "  (no recognized metadata keys)\n"@
    } else {
        spec_meta_lines(pairs)
    });
    let line = entries_line(meta);
    let section = spec_section(title, path, meta);
    assert(section =~= head + line);
    assert((head + line).subrange(head.len() as int, (head + line).len() as int) =~= line);
}

/// The talker's section, then the codec's, make up an inspection report, between its
/// header and its validation lines.
pub proof fn lemma_report_holds_both_sections(
    backend: Seq<char>,
    talker_path: Seq<char>,
    codec_path: Seq<char>,
    talker: GgufMetadata,
    codec: GgufMetadata,
)
    ensures
        ({
            let report = spec_inspect_report(backend, talker_path, codec_path, talker, codec);
            let head = "═══════════════════════════════════════════\nGGUF Metadata Inspection\nBackend: "@ + backend
                + "\n═══════════════════════════════════════════\n\n"@;
            let ts = spec_section("── Talker ──────────────────────────────"@, talker_path, talker);
            let cs = spec_section("── Codec ───────────────────────────────"@, codec_path, codec);
            report.subrange(0, (head.len() + ts.len()) as int) == head + ts
                && report.subrange((head.len() + ts.len() + 1) as int, (head.len() + ts.len() + 1 + cs.len()) as int) == cs
        }),
{
    let head = "═══════════════════════════════════════════\nGGUF Metadata Inspection\nBackend: "@ + backend
        + "\n═══════════════════════════════════════════\n\n"@;
    let ts = spec_section("── Talker ──────────────────────────────"@, talker_path, talker);
    let cs = spec_section("── Codec ───────────────────────────────"@, codec_path, codec);
    let rest = "\n── Validation ───────────────────────────\n"@ + spec_talker_verdict_text(talker)
        + spec_codec_verdict_text(codec) + spec_type_line("  ℹ Talker TTS type: "@, talker) + spec_type_line(
        "  ℹ Codec TTS type: "@,
        codec,
    );
    let report = spec_inspect_report(backend, talker_path, codec_path, talker, codec);
    let x = head + ts;
    let y = "\n"@ + cs;
    assert(report =~= x + y + rest);
    assert(report.subrange(0, x.len() as int) =~= x);
    let whole = x + y + rest;
    reveal_strlit("\n");
    assert(whole.len() == x.len() + 1 + cs.len() + rest.len());
    assert forall|i: int| 0 <= i < cs.len() implies whole[x.len() + 1 + i] == cs[i] by {
        assert(whole[x.len() + 1 + i] == (x + y)[x.len() + 1 + i]);
        assert((x + y)[x.len() + 1 + i] == y[1 + i]);
    }
    assert(report.subrange((x.len() + 1) as int, (x.len() + 1 + cs.len()) as int) =~= cs);
}

} // verus!
