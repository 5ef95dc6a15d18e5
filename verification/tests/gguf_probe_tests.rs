use qwen_tts_app::gguf_probe::{
    architecture, check_codec, check_talker, extract_metadata, inspect_report, GgufMetadata,
    MetaValue, ModelCheck, INTERESTING_KEYS,
};

fn meta(entries: Vec<(&str, MetaValue)>) -> GgufMetadata {
    let mut m = GgufMetadata::new();
    for (k, v) in entries {
        m.insert(k.to_string(), v);
    }
    m
}

#[test]
fn test_interesting_keys_non_empty() {
    assert!(!INTERESTING_KEYS.is_empty());
    assert!(INTERESTING_KEYS.contains(&"general.architecture"));
}

#[test]
fn insert_then_get_gives_the_value_back() {
    let mut m = GgufMetadata::new();
    assert_eq!(m.len(), 0);
    m.insert("general.name".to_string(), MetaValue::Str("a".to_string()));
    m.insert("general.alignment".to_string(), MetaValue::U32(32));
    assert_eq!(m.len(), 2);
    m.insert("general.name".to_string(), MetaValue::Str("b".to_string()));
    assert_eq!(m.len(), 2);
    assert_eq!(m.get_string("general.name"), Some("b"));
    assert_eq!(m.get_u32("general.alignment"), Some(32));
    assert_eq!(m.get_u32("general.name"), None);
    assert!(m.get("missing").is_none());
}

#[test]
fn extract_follows_key_order_and_skips_other_types() {
    let m = meta(vec![
        ("qwen3tts.codec.codebooks", MetaValue::U32(16)),
        ("general.architecture", MetaValue::Str("qwen3tts".to_string())),
        ("general.file_type", MetaValue::U64(7)),
        ("llama.rope.freq_base", MetaValue::F32("1000000.0000".to_string())),
        ("general.version", MetaValue::Bool(true)),
        ("general.name", MetaValue::Other),
        ("unrelated.key", MetaValue::U32(1)),
    ]);
    let pairs = extract_metadata(&m);
    let expected: Vec<(String, String)> = vec![
        ("general.architecture".into(), "qwen3tts".into()),
        ("general.file_type".into(), "7".into()),
        ("general.version".into(), "true".into()),
        ("llama.rope.freq_base".into(), "1000000.0000".into()),
        ("qwen3tts.codec.codebooks".into(), "16".into()),
    ];
    assert_eq!(pairs, expected);
}

#[test]
fn talker_checks() {
    let confirmed = meta(vec![
        ("general.architecture", MetaValue::Str("qwen3tts".to_string())),
        ("qwen3tts.talker.num_speakers", MetaValue::U32(9)),
    ]);
    assert_eq!(check_talker(&confirmed), ModelCheck::Confirmed);
    let plain = meta(vec![("general.architecture", MetaValue::Str("qwen3".to_string()))]);
    assert_eq!(check_talker(&plain), ModelCheck::MissingTtsKeys);
    let wrong_type = meta(vec![
        ("general.architecture", MetaValue::Str("qwen3".to_string())),
        ("qwen3tts.talker.num_speakers", MetaValue::U64(9)),
    ]);
    assert_eq!(check_talker(&wrong_type), ModelCheck::MissingTtsKeys);
    let other = meta(vec![("general.architecture", MetaValue::Str("llama".to_string()))]);
    assert_eq!(check_talker(&other), ModelCheck::Unexpected);
    assert_eq!(check_talker(&GgufMetadata::new()), ModelCheck::Unexpected);
    assert_eq!(architecture(&GgufMetadata::new()), "unknown");
}

#[test]
fn codec_checks() {
    let audio = meta(vec![
        ("general.architecture", MetaValue::Str("audio-codec".to_string())),
        ("qwen3tts.audio.codec_dim", MetaValue::U32(512)),
    ]);
    assert_eq!(check_codec(&audio), ModelCheck::Confirmed);
    let codec_only = meta(vec![("general.architecture", MetaValue::Str("mycodec".to_string()))]);
    assert_eq!(check_codec(&codec_only), ModelCheck::MissingTtsKeys);
    let other = meta(vec![("general.architecture", MetaValue::Str("llama".to_string()))]);
    assert_eq!(check_codec(&other), ModelCheck::Unexpected);
}

#[test]
fn report_of_a_tts_pair() {
    let talker = meta(vec![
        ("general.architecture", MetaValue::Str("qwen3tts".to_string())),
        ("qwen3tts.type", MetaValue::Str("talker".to_string())),
    ]);
    let codec = GgufMetadata::new();
    let report = inspect_report("CPU", "t.gguf", "c.gguf", &talker, &codec);
    let bar = "═".repeat(43);
    let expected = [
        format!("{bar}\nGGUF Metadata Inspection\nBackend: CPU\n{bar}\n\n"),
        "── Talker ──────────────────────────────\n  Path: t.gguf\n".to_string(),
        "  general.architecture: qwen3tts\n  qwen3tts.type: talker\n\n  Metadata entries: 2\n\n".to_string(),
        "── Codec ───────────────────────────────\n  Path: c.gguf\n".to_string(),
        "  (no recognized metadata keys)\n\n  Metadata entries: 0\n".to_string(),
        "\n── Validation ───────────────────────────\n".to_string(),
        "  ✅ Talker architecture 'qwen3tts' with TTS metadata — confirmed Qwen3-TTS.\n".to_string(),
        "  ⚠ Codec architecture 'unknown' — may not be correct.\n".to_string(),
        "  ℹ Talker TTS type: talker\n".to_string(),
    ]
    .concat();
    assert_eq!(report, expected);
}

#[test]
fn report_warns_about_plain_llm() {
    let talker = meta(vec![("general.architecture", MetaValue::Str("qwen3".to_string()))]);
    let codec = meta(vec![("general.architecture", MetaValue::Str("qwen3".to_string()))]);
    let report = inspect_report("CPU", "t", "c", &talker, &codec);
    assert!(report.contains(
        "  ⚠ Talker architecture 'qwen3' but no TTS metadata keys found.\n⚠ This may be a plain Qwen3 LLM GGUF, not a TTS model.\n"
    ));
    assert!(report.contains(
        "  ⚠ Codec architecture 'qwen3' but no TTS codec metadata keys found.\n⚠ This may be a plain Qwen3 LLM GGUF or a non-TTS audio model.\n"
    ));
}
