use qwen_tts_app::downloader::{
    download_default_models, download_file_name, download_selected_files, ensure_default_models,
    hf_file_url, is_yes_answer, missing_notice, progress_label, summary_text, DownloadError,
    EnsureAction, EnsureEvent, EnsureStage, FetchAction, FetchEvent, FetchStage, SelectStage,
    DEFAULT_FILES, DEFAULT_REPO, DEFAULT_REVISION,
};
use std::cell::RefCell;

type Fetch<'a> = &'a dyn Fn(&str, &str, &str, &str) -> Result<String, DownloadError>;

/// Runs a download of the default models, performing each transfer with `fetch`.
fn run_default(repo: &str, out_dir: &str, fetch: Fetch) -> Result<Vec<String>, DownloadError> {
    let (mut stage, mut action) = download_default_models(repo, out_dir, FetchStage::Start, FetchEvent::Begin);
    loop {
        let event = match action {
            FetchAction::Fetch(r) => FetchEvent::Fetched(fetch(&r.repo, &r.file, &r.out_dir, &r.revision)),
            FetchAction::Finish(result) => return result,
        };
        let next = download_default_models(repo, out_dir, stage, event);
        stage = next.0;
        action = next.1;
    }
}

/// Runs the check for the default models with the given presence flags.
fn run_ensure(
    out_dir: &str,
    repo: &str,
    present: Vec<bool>,
    confirm: &dyn Fn(&str) -> Result<bool, DownloadError>,
    fetch: Fetch,
) -> Result<Option<Vec<String>>, DownloadError> {
    let (mut stage, mut action) = ensure_default_models(out_dir, repo, EnsureStage::Start, EnsureEvent::Checked(present));
    loop {
        let event = match action {
            EnsureAction::Confirm(notice) => EnsureEvent::Answered(confirm(&notice)),
            EnsureAction::Fetch(r) => EnsureEvent::Fetched(fetch(&r.repo, &r.file, &r.out_dir, &r.revision)),
            EnsureAction::Finish(result) => return result,
        };
        let next = ensure_default_models(out_dir, repo, stage, event);
        stage = next.0;
        action = next.1;
    }
}

/// Runs a download of the selected files.
fn run_selected(
    repo: &str,
    files: &Vec<String>,
    out_dir: &str,
    revision: &str,
    fetch: Fetch,
) -> Result<Vec<String>, DownloadError> {
    let (mut stage, mut action) =
        download_selected_files(repo, files, out_dir, revision, SelectStage::Start, FetchEvent::Begin);
    loop {
        let event = match action {
            FetchAction::Fetch(r) => FetchEvent::Fetched(fetch(&r.repo, &r.file, &r.out_dir, &r.revision)),
            FetchAction::Finish(result) => return result,
        };
        let next = download_selected_files(repo, files, out_dir, revision, stage, event);
        stage = next.0;
        action = next.1;
    }
}

#[test]
fn test_default_files_non_empty() {
    assert!(!DEFAULT_FILES.is_empty());
    assert!(DEFAULT_FILES.contains(&"qwen-talker-1.7b-base-Q8_0.gguf"));
}

#[test]
fn test_download_url_pattern() {
    // Verify URL construction matches expected Hugging Face pattern
    let repo = "Serveurperso/Qwen3-TTS-GGUF";
    let file = "qwen-talker-1.7b-base-Q8_0.gguf";
    let rev = "main";
    let expected = "https://huggingface.co/Serveurperso/Qwen3-TTS-GGUF/resolve/main/qwen-talker-1.7b-base-Q8_0.gguf";
    let actual = format!("https://huggingface.co/{repo}/resolve/{rev}/{file}");
    assert_eq!(expected, actual);
    assert_eq!(hf_file_url(repo, rev, file), expected);
}

#[test]
fn default_constants() {
    assert_eq!(DEFAULT_REPO, "Serveurperso/Qwen3-TTS-GGUF");
    assert_eq!(DEFAULT_REVISION, "main");
    assert_eq!(DEFAULT_FILES, ["qwen-talker-1.7b-base-Q8_0.gguf", "qwen-tokenizer-12hz-Q8_0.gguf"]);
}

#[test]
fn file_name_is_last_path_segment() {
    assert_eq!(download_file_name("a/b/c.gguf"), "c.gguf");
    assert_eq!(download_file_name("plain.gguf"), "plain.gguf");
    assert_eq!(download_file_name("dir/"), "");
    assert_eq!(download_file_name(""), "");
}

#[test]
fn progress_label_shows_size_or_question_mark() {
    assert_eq!(progress_label("sub/model.gguf", None), "model.gguf (?)");
    assert_eq!(progress_label("model.gguf", Some(15)), "model.gguf (15 B)");
    assert_eq!(progress_label("model.gguf", Some(1_500)), "model.gguf (1.46 KiB)");
}

#[test]
fn summary_lists_sizes_and_paths() {
    let paths = vec!["models/a.gguf".to_string(), "models/b.gguf".to_string()];
    let sizes = vec![15u64, 0];
    assert_eq!(
        summary_text(&paths, &sizes),
        "\nDownload summary:\n  15 B  models/a.gguf\n  0 B  models/b.gguf\n"
    );
}

#[test]
fn yes_answers() {
    assert!(is_yes_answer(""));
    assert!(is_yes_answer("  \n"));
    assert!(is_yes_answer("y\n"));
    assert!(is_yes_answer(" YES "));
    assert!(!is_yes_answer("n"));
    assert!(!is_yes_answer("no"));
    assert!(!is_yes_answer("yep"));
}

#[test]
fn default_models_downloaded_in_order() {
    let calls = RefCell::new(Vec::new());
    let fetch = |repo: &str, file: &str, dir: &str, rev: &str| -> Result<String, DownloadError> {
        calls.borrow_mut().push(format!("{repo}|{file}|{dir}|{rev}"));
        Ok(format!("{dir}/{file}"))
    };
    let paths = run_default(DEFAULT_REPO, "models", &fetch).unwrap();
    assert_eq!(
        paths,
        vec![
            "models/qwen-talker-1.7b-base-Q8_0.gguf".to_string(),
            "models/qwen-tokenizer-12hz-Q8_0.gguf".to_string()
        ]
    );
    assert_eq!(
        *calls.borrow(),
        vec![
            "Serveurperso/Qwen3-TTS-GGUF|qwen-talker-1.7b-base-Q8_0.gguf|models|main".to_string(),
            "Serveurperso/Qwen3-TTS-GGUF|qwen-tokenizer-12hz-Q8_0.gguf|models|main".to_string()
        ]
    );
}

#[test]
fn default_models_stop_at_first_failure() {
    let calls = RefCell::new(0);
    let fetch = |_: &str, _: &str, _: &str, _: &str| -> Result<String, DownloadError> {
        *calls.borrow_mut() += 1;
        Err(DownloadError::Failed("HTTP 404".to_string()))
    };
    let err = run_default(DEFAULT_REPO, "models", &fetch).unwrap_err();
    assert_eq!(err.message(), "HTTP 404");
    assert_eq!(*calls.borrow(), 1);
}

#[test]
fn test_ensure_default_models_all_exist() {
    let asked = RefCell::new(false);
    let confirm = |_: &str| -> Result<bool, DownloadError> {
        *asked.borrow_mut() = true;
        Ok(true)
    };
    let fetch = |_: &str, _: &str, _: &str, _: &str| -> Result<String, DownloadError> {
        panic!("nothing is missing, nothing is downloaded")
    };
    let r = run_ensure("models", DEFAULT_REPO, vec![true, true], &confirm, &fetch);
    assert!(r.is_ok());
    assert!(r.unwrap().is_none());
    assert!(!*asked.borrow());
}

#[test]
fn test_ensure_default_models_some_missing() {
    // A non-interactive prompt declines.
    let shown = RefCell::new(String::new());
    let confirm = |notice: &str| -> Result<bool, DownloadError> {
        *shown.borrow_mut() = notice.to_string();
        Ok(false)
    };
    let fetch = |_: &str, _: &str, _: &str, _: &str| -> Result<String, DownloadError> {
        panic!("declined, nothing is downloaded")
    };
    let r = run_ensure("models", DEFAULT_REPO, vec![false, false], &confirm, &fetch);
    assert!(r.is_err());
    let err = r.unwrap_err();
    assert!(matches!(err, DownloadError::Cancelled));
    assert_eq!(
        err.message(),
        "Download cancelled. Run `cargo run -- download` manually to download models."
    );
    assert_eq!(
        *shown.borrow(),
        "Default model files not found in 'models':\n  - qwen-talker-1.7b-base-Q8_0.gguf\n  - qwen-tokenizer-12hz-Q8_0.gguf\nThese files are required for TTS synthesis (~2 GB total).\n"
    );
}

#[test]
fn ensure_downloads_after_confirmation() {
    let confirm = |_: &str| -> Result<bool, DownloadError> { Ok(true) };
    let fetch = |_: &str, file: &str, dir: &str, _: &str| -> Result<String, DownloadError> {
        Ok(format!("{dir}/{file}"))
    };
    let r = run_ensure("m", DEFAULT_REPO, vec![false, false], &confirm, &fetch).unwrap();
    assert_eq!(r.unwrap().len(), 2);
}

#[test]
fn missing_notice_lists_each_file() {
    let text = missing_notice("models", &vec!["a.gguf", "b.gguf"]);
    assert_eq!(
        text,
        "Default model files not found in 'models':\n  - a.gguf\n  - b.gguf\nThese files are required for TTS synthesis (~2 GB total).\n"
    );
}

#[test]
fn selected_files_go_on_past_failures() {
    let fetch = |_: &str, file: &str, dir: &str, _: &str| -> Result<String, DownloadError> {
        if file == "bad.gguf" {
            Err(DownloadError::Failed("HTTP 404".to_string()))
        } else {
            Ok(format!("{dir}/{file}"))
        }
    };
    let files = vec!["bad.gguf".to_string(), "good.gguf".to_string()];
    let paths = run_selected("r", &files, "out", "main", &fetch).unwrap();
    assert_eq!(paths, vec!["out/good.gguf".to_string()]);
}

#[test]
fn selected_files_default_to_default_models() {
    let seen = RefCell::new(Vec::new());
    let fetch = |_: &str, file: &str, _: &str, _: &str| -> Result<String, DownloadError> {
        seen.borrow_mut().push(file.to_string());
        Ok(file.to_string())
    };
    let paths = run_selected("r", &vec![], "out", "main", &fetch).unwrap();
    assert_eq!(paths.len(), 2);
    assert_eq!(*seen.borrow(), vec![DEFAULT_FILES[0].to_string(), DEFAULT_FILES[1].to_string()]);
}

#[test]
fn nothing_downloaded_is_an_error() {
    let fetch = |_: &str, _: &str, _: &str, _: &str| -> Result<String, DownloadError> {
        Err(DownloadError::Failed("offline".to_string()))
    };
    let err = run_selected("r", &vec!["x".to_string()], "out", "main", &fetch).unwrap_err();
    assert!(matches!(err, DownloadError::NoneDownloaded));
    assert_eq!(err.message(), "No files were downloaded successfully.");
}

#[test]
fn ensure_downloads_from_the_given_repository() {
    let calls = RefCell::new(Vec::new());
    let confirm = |_: &str| -> Result<bool, DownloadError> { Ok(true) };
    let fetch = |repo: &str, file: &str, dir: &str, rev: &str| -> Result<String, DownloadError> {
        calls.borrow_mut().push(format!("{repo}|{file}|{dir}|{rev}"));
        Ok(format!("{dir}/{file}"))
    };
    let r = run_ensure("m", "someone/other-repo", vec![true, false], &confirm, &fetch).unwrap();
    assert_eq!(
        r.unwrap(),
        vec!["m/qwen-talker-1.7b-base-Q8_0.gguf".to_string(), "m/qwen-tokenizer-12hz-Q8_0.gguf".to_string()]
    );
    assert_eq!(
        *calls.borrow(),
        vec![
            "someone/other-repo|qwen-talker-1.7b-base-Q8_0.gguf|m|main".to_string(),
            "someone/other-repo|qwen-tokenizer-12hz-Q8_0.gguf|m|main".to_string()
        ]
    );
}

#[test]
fn ensure_stops_at_the_first_failed_transfer() {
    let calls = RefCell::new(0);
    let confirm = |_: &str| -> Result<bool, DownloadError> { Ok(true) };
    let fetch = |_: &str, _: &str, _: &str, _: &str| -> Result<String, DownloadError> {
        *calls.borrow_mut() += 1;
        Err(DownloadError::Failed("offline".to_string()))
    };
    let err = run_ensure("m", DEFAULT_REPO, vec![false, false], &confirm, &fetch).unwrap_err();
    assert_eq!(err.message(), "offline");
    assert_eq!(*calls.borrow(), 1);
}

#[test]
fn prompt_error_ends_the_check() {
    let confirm = |_: &str| -> Result<bool, DownloadError> { Err(DownloadError::Failed("stdin closed".to_string())) };
    let fetch = |_: &str, _: &str, _: &str, _: &str| -> Result<String, DownloadError> {
        panic!("no answer, nothing is downloaded")
    };
    let err = run_ensure("m", DEFAULT_REPO, vec![false, true], &confirm, &fetch).unwrap_err();
    assert_eq!(err.message(), "stdin closed");
}

#[test]
fn default_download_step_by_step() {
    let (stage, action) = download_default_models("r", "d", FetchStage::Start, FetchEvent::Begin);
    match &action {
        FetchAction::Fetch(req) => {
            assert_eq!((req.repo.as_str(), req.file.as_str(), req.out_dir.as_str(), req.revision.as_str()),
                ("r", DEFAULT_FILES[0], "d", "main"));
        }
        other => panic!("unexpected {other:?}"),
    }
    let (stage, action) = download_default_models("r", "d", stage, FetchEvent::Fetched(Ok("d/a".to_string())));
    match &action {
        FetchAction::Fetch(req) => assert_eq!(req.file, DEFAULT_FILES[1]),
        other => panic!("unexpected {other:?}"),
    }
    let (stage, action) = download_default_models("r", "d", stage, FetchEvent::Fetched(Ok("d/b".to_string())));
    assert!(matches!(stage, FetchStage::Finished));
    match action {
        FetchAction::Finish(Ok(p)) => assert_eq!(p, vec!["d/a".to_string(), "d/b".to_string()]),
        other => panic!("unexpected {other:?}"),
    }
}
