//! Model download planning: the Hugging Face URLs, the default model files, the steps of
//! each download and the texts shown around them. Each step says what to do next (ask
//! the user, transfer a file, finish); the caller does it and reports the outcome.

use vstd::prelude::*;
use crate::text::{spec_decimal, spec_to_lowercase, spec_trim, str_equal, str_to_lowercase, str_trim};

verus! {

/// Git revision / branch used when none is given.
pub const DEFAULT_REVISION: &'static str = "main";

/// The default Qwen3-TTS model files to download.
pub const DEFAULT_FILES: [&'static str; 2] = ["qwen-talker-1.7b-base-Q8_0.gguf", "qwen-tokenizer-12hz-Q8_0.gguf"];

/// Hugging Face repository of the default models.
pub const DEFAULT_REPO: &'static str = "Serveurperso/Qwen3-TTS-GGUF";

/// Why a download step failed.
#[derive(Debug)]
pub enum DownloadError {
    /// A transfer or terminal interaction failed; the text says how.
    Failed(String),
    /// The user declined to download missing default models.
    Cancelled,
    /// Not one of the requested files could be downloaded.
    NoneDownloaded,
}

impl DownloadError {
    pub open spec fn spec_message(self) -> Seq<char> {
        match self {
            DownloadError::Failed(m) => m@,
            DownloadError::Cancelled => "Download cancelled. Run `cargo run -- download` manually to download models."@,
            DownloadError::NoneDownloaded => "No files were downloaded successfully."@,
        }
    }

    /// The text that reports this error.
    pub fn message(&self) -> (m: String)
        ensures
            m@ == self.spec_message(),
    {
        match self {
            DownloadError::Failed(m) => m.clone(),
            DownloadError::Cancelled => String::from_str(
                "Download cancelled. Run `cargo run -- download` manually to download models.",
            ),
            DownloadError::NoneDownloaded => String::from_str("No files were downloaded successfully."),
        }
    }
}

/// The URL of `file_path` in `repo_id` at `revision` on Hugging Face Hub.
pub open spec fn spec_hf_file_url(repo_id: Seq<char>, revision: Seq<char>, file_path: Seq<char>) -> Seq<char> {
    "https://huggingface.co/"@ + repo_id + "/resolve/"@ + revision + "/"@ + file_path
}

/// Builds the download URL of a file of a Hugging Face repository.
pub fn hf_file_url(repo_id: &str, revision: &str, file_path: &str) -> (url: String)
    ensures
        url@ == spec_hf_file_url(repo_id@, revision@, file_path@),
{
    let mut url = String::from_str("https://huggingface.co/");
    url.append(repo_id);
    url.append("/resolve/");
    url.append(revision);
    url.append("/");
    url.append(file_path);
    url
}

/// What follows the last `/` of a path (all of it when there is none), as
/// `rsplit('/').next()` gives it.
pub open spec fn spec_last_segment(s: Seq<char>) -> Seq<char>
    decreases s.len(),
{
    if s.len() == 0 {
        s
    } else if s.last() == '/' {
        Seq::empty()
    } else {
        spec_last_segment(s.drop_last()).push(s.last())
    }
}

/// `k` is where the last segment of `s` starts: just after a `/`, or at 0, with no `/`
/// from there on.
spec fn is_segment_start(s: Seq<char>, k: int) -> bool {
    &&& 0 <= k <= s.len()
    &&& k == 0 || s[k - 1] == '/'
    &&& forall|j: int| k <= j < s.len() ==> s[j] != '/'
}

proof fn lemma_segment_start(s: Seq<char>, k: int)
    requires
        is_segment_start(s, k),
    ensures
        s.subrange(k, s.len() as int) == spec_last_segment(s),
    decreases s.len(),
{
    if s.len() == 0 {
    } else if k == s.len() {
        assert(s.last() == '/');
    } else {
        assert(s.last() != '/');
        let t = s.drop_last();
        assert(is_segment_start(t, k));
        lemma_segment_start(t, k);
        assert(s.subrange(k, s.len() as int) == t.subrange(k, t.len() as int).push(s.last()));
    }
}

/// The file name shown for a downloaded file: its path after the last `/`.
pub fn download_file_name(file_path: &str) -> (name: String)
    ensures
        name@ == spec_last_segment(file_path@),
{
    let n = file_path.unicode_len();
    let mut start: usize = 0;
    let mut i: usize = 0;
    while i < n
        invariant
            n == file_path@.len(),
            start <= i <= n,
            start == 0 || file_path@[start - 1] == '/',
            forall|j: int| start <= j < i ==> file_path@[j] != '/',
        decreases n - i,
    {
        if file_path.get_char(i) == '/' {
            start = i + 1;
        }
        i = i + 1;
    }
    proof {
        lemma_segment_start(file_path@, start as int);
    }
    String::from_str(file_path.substring_char(start, n))
}

/// What `indicatif::HumanBytes` displays for a byte count.
pub uninterp spec fn human_bytes_text(n: u64) -> Seq<char>;

/// Calls `indicatif::HumanBytes(n).to_string()`. Its result is named `human_bytes_text`;
/// below 1024 it is the count in decimal followed by " B" (no binary prefix applies).
/// The prefixed form with two decimals above that is left unsaid.
#[verifier::external_body]
fn human_bytes(n: u64) -> (s: String)
    ensures
        s@ == human_bytes_text(n),
        n < 1024 ==> s@ == spec_decimal(n as nat) + " B"@,
{
    indicatif::HumanBytes(n).to_string()
}

/// The label of a download's progress bar before the transfer starts: the file name and
/// its total size, or `?` when the size is unknown.
pub open spec fn spec_progress_label(file_path: Seq<char>, total: Option<u64>) -> Seq<char> {
    spec_last_segment(file_path) + " ("@ + (match total {
        Some(n) => human_bytes_text(n),
        None => "?"@,
    }) + ")"@
}

/// Builds the initial progress label of a download.
pub fn progress_label(file_path: &str, total: Option<u64>) -> (label: String)
    ensures
        label@ == spec_progress_label(file_path@, total),
{
    let mut label = download_file_name(file_path);
    label.append(" (");
    match total {
        Some(n) => {
            let size = human_bytes(n);
            label.append(size.as_str());
        },
        None => {
            label.append("?");
        },
    }
    label.append(")");
    label
}


/// One transfer: a file of a repository at a revision, written into a directory.
#[derive(Debug)]
pub struct FetchRequest {
    pub repo: String,
    pub file: String,
    pub out_dir: String,
    pub revision: String,
}

/// The view of a transfer.
pub struct FetchRequestView {
    pub repo: Seq<char>,
    pub file: Seq<char>,
    pub out_dir: Seq<char>,
    pub revision: Seq<char>,
}

impl FetchRequest {
    pub open spec fn view(self) -> FetchRequestView {
        FetchRequestView {
            repo: self.repo@,
            file: self.file@,
            out_dir: self.out_dir@,
            revision: self.revision@,
        }
    }
}

/// The transfer of the `k`-th default model file from `repo` at the default revision into
/// `out_dir`.
pub open spec fn default_fetch(repo: Seq<char>, out_dir: Seq<char>, k: int) -> FetchRequestView {
    FetchRequestView { repo, file: DEFAULT_FILES[k]@, out_dir, revision: DEFAULT_REVISION@ }
}

fn default_fetch_request(repo: &str, out_dir: &str, k: usize) -> (r: FetchRequest)
    requires
        k < DEFAULT_FILES.len(),
    ensures
        r.view() == default_fetch(repo@, out_dir@, k as int),
{
    let files = DEFAULT_FILES;
    FetchRequest {
        repo: String::from_str(repo),
        file: String::from_str(files[k]),
        out_dir: String::from_str(out_dir),
        revision: String::from_str(DEFAULT_REVISION),
    }
}

/// The texts of a list of paths.
pub open spec fn paths_view(paths: Seq<String>) -> Seq<Seq<char>> {
    paths.map_values(|p: String| p@)
}

/// Where a download of the default model files stands.
#[derive(Debug)]
pub enum FetchStage {
    /// Nothing has happened yet.
    Start,
    /// Waiting for the transfer of the next default file; holds the paths written for
    /// the earlier ones, in order.
    Fetching(Vec<String>),
    /// The download is over.
    Finished,
}

/// The view of a download stage.
pub enum FetchStageView {
    Start,
    Fetching(Seq<Seq<char>>),
    Finished,
}

impl FetchStage {
    pub open spec fn view(self) -> FetchStageView {
        match self {
            FetchStage::Start => FetchStageView::Start,
            FetchStage::Fetching(p) => FetchStageView::Fetching(paths_view(p@)),
            FetchStage::Finished => FetchStageView::Finished,
        }
    }
}

/// What the caller reports to a download of the default model files.
#[derive(Debug)]
pub enum FetchEvent {
    /// The download starts.
    Begin,
    /// The transfer asked for wrote this path, or failed with this error.
    Fetched(Result<String, DownloadError>),
}

/// The view of a download event.
pub enum FetchEventView {
    Begin,
    Fetched(Result<Seq<char>, DownloadError>),
}

/// The view of a transfer's result.
pub open spec fn fetched_view(r: Result<String, DownloadError>) -> Result<Seq<char>, DownloadError> {
    match r {
        Ok(p) => Ok(p@),
        Err(e) => Err(e),
    }
}

impl FetchEvent {
    pub open spec fn view(self) -> FetchEventView {
        match self {
            FetchEvent::Begin => FetchEventView::Begin,
            FetchEvent::Fetched(r) => FetchEventView::Fetched(fetched_view(r)),
        }
    }
}

/// What a download of the default model files asks the caller to do next.
#[derive(Debug)]
pub enum FetchAction {
    /// Perform this transfer.
    Fetch(FetchRequest),
    /// The download is over: the paths written, one per default file in order, or the
    /// error of the transfer that failed.
    Finish(Result<Vec<String>, DownloadError>),
}

/// The view of a download action.
pub enum FetchActionView {
    Fetch(FetchRequestView),
    Finish(Result<Seq<Seq<char>>, DownloadError>),
}

impl FetchAction {
    pub open spec fn view(self) -> FetchActionView {
        match self {
            FetchAction::Fetch(r) => FetchActionView::Fetch(r.view()),
            FetchAction::Finish(Ok(p)) => FetchActionView::Finish(Ok(paths_view(p@))),
            FetchAction::Finish(Err(e)) => FetchActionView::Finish(Err(e)),
        }
    }
}

/// The events each download stage waits for.
pub open spec fn spec_fetch_accepts(stage: FetchStageView, event: FetchEventView) -> bool {
    match stage {
        FetchStageView::Start => event is Begin,
        FetchStageView::Fetching(p) => event is Fetched && p.len() < DEFAULT_FILES.len(),
        FetchStageView::Finished => false,
    }
}

/// One step of downloading the default model files from `repo` into `out_dir`: start with
/// the first file; after each successful transfer ask for the next file, or finish with
/// all paths after the last one; after a failed transfer finish with its error and fetch
/// nothing more.
pub open spec fn spec_fetch_step(
    repo: Seq<char>,
    out_dir: Seq<char>,
    stage: FetchStageView,
    event: FetchEventView,
) -> (FetchStageView, FetchActionView) {
    match (stage, event) {
        (FetchStageView::Start, FetchEventView::Begin) => (
            FetchStageView::Fetching(Seq::empty()),
            FetchActionView::Fetch(default_fetch(repo, out_dir, 0)),
        ),
        (FetchStageView::Fetching(p), FetchEventView::Fetched(Err(e))) => (
            FetchStageView::Finished,
            FetchActionView::Finish(Err(e)),
        ),
        (FetchStageView::Fetching(p), FetchEventView::Fetched(Ok(path))) => {
            let q = p.push(path);
            if q.len() == DEFAULT_FILES.len() {
                (FetchStageView::Finished, FetchActionView::Finish(Ok(q)))
            } else {
                (FetchStageView::Fetching(q), FetchActionView::Fetch(default_fetch(repo, out_dir, q.len() as int)))
            }
        },
        _ => (FetchStageView::Finished, FetchActionView::Finish(Err(DownloadError::NoneDownloaded))),
    }
}

/// Advances a download of the default model files from `repo` into `out_dir` (see
/// `spec_fetch_step`); the caller performs each transfer asked for and reports its result.
pub fn download_default_models(repo: &str, out_dir: &str, stage: FetchStage, event: FetchEvent) -> (r: (
    FetchStage,
    FetchAction,
))
    requires
        spec_fetch_accepts(stage.view(), event.view()),
    ensures
        (r.0.view(), r.1.view()) == spec_fetch_step(repo@, out_dir@, stage.view(), event.view()),
{
    match (stage, event) {
        (FetchStage::Start, FetchEvent::Begin) => {
            let none: Vec<String> = Vec::new();
            proof {
                assert(paths_view(none@) =~= Seq::<Seq<char>>::empty());
            }
            (FetchStage::Fetching(none), FetchAction::Fetch(default_fetch_request(repo, out_dir, 0)))
        },
        (FetchStage::Fetching(p), FetchEvent::Fetched(Err(e))) => (
            FetchStage::Finished,
            FetchAction::Finish(Err(e)),
        ),
        (FetchStage::Fetching(p), FetchEvent::Fetched(Ok(path))) => {
            let mut q = p;
            let ghost before = q@;
            q.push(path);
            proof {
                assert(paths_view(q@) =~= paths_view(before).push(path@));
            }
            if q.len() == DEFAULT_FILES.len() {
                (FetchStage::Finished, FetchAction::Finish(Ok(q)))
            } else {
                let k = q.len();
                (FetchStage::Fetching(q), FetchAction::Fetch(default_fetch_request(repo, out_dir, k)))
            }
        },
        _ => (FetchStage::Finished, FetchAction::Finish(Err(DownloadError::NoneDownloaded))),
    }
}


/// The default model files whose presence flag is false, in order.
pub open spec fn spec_missing_files(present: Seq<bool>) -> Seq<Seq<char>>
    decreases present.len(),
{
    if present.len() == 0 {
        Seq::empty()
    } else {
        let i = present.len() - 1;
        let earlier = spec_missing_files(present.drop_last());
        if present[i] {
            earlier
        } else {
            earlier.push(DEFAULT_FILES[i]@)
        }
    }
}

/// One `  - file` line per file.
pub open spec fn spec_bullet_lines(files: Seq<Seq<char>>) -> Seq<char>
    decreases files.len(),
{
    if files.len() == 0 {
        Seq::empty()
    } else {
        spec_bullet_lines(files.drop_last()) + "  - "@ + files.last() + "\n"@
    }
}

/// The notice shown before asking whether to download missing default models.
pub open spec fn spec_missing_notice(out_dir: Seq<char>, missing: Seq<Seq<char>>) -> Seq<char> {
    "Default model files not found in '"@ + out_dir + "':\n"@ + spec_bullet_lines(missing)
        + "These files are required for TTS synthesis (~2 GB total).\n"@
}


/// Builds the notice that lists the default model files missing from `out_dir`.
pub fn missing_notice(out_dir: &str, missing: &Vec<&'static str>) -> (notice: String)
    ensures
        notice@ == spec_missing_notice(out_dir@, missing@.map_values(|f: &str| f@)),
{
    let mut notice = String::from_str("Default model files not found in '");
    notice.append(out_dir);
    notice.append("':\n");
    let ghost head = notice@;
    let mut i: usize = 0;
    while i < missing.len()
        invariant
            i <= missing.len(),
            head == "Default model files not found in '"@ + out_dir@ + "':\n"@,
            notice@ == head + spec_bullet_lines(missing@.map_values(|f: &str| f@).take(i as int)),
        decreases missing.len() - i,
    {
        proof {
            let all = missing@.map_values(|f: &str| f@);
            assert(all.take(i + 1).drop_last() == all.take(i as int));
        }
        notice.append("  - ");
        notice.append(missing[i]);
        notice.append("\n");
        i = i + 1;
    }
    proof {
        let all = missing@.map_values(|f: &str| f@);
        assert(all.take(missing.len() as int) == all);
    }
    notice.append("These files are required for TTS synthesis (~2 GB total).\n");
    notice
}
/// The stage and last action of a default download that received `events`, in order.
pub open spec fn spec_fetch_run(repo: Seq<char>, out_dir: Seq<char>, events: Seq<FetchEventView>) -> (
    FetchStageView,
    FetchActionView,
)
    decreases events.len(),
{
    if events.len() == 0 {
        (FetchStageView::Start, FetchActionView::Finish(Err(DownloadError::NoneDownloaded)))
    } else {
        spec_fetch_step(repo, out_dir, spec_fetch_run(repo, out_dir, events.drop_last()).0, events.last())
    }
}

/// Each of `events` was one the download waited for when it came.
pub open spec fn fetch_run_accepted(repo: Seq<char>, out_dir: Seq<char>, events: Seq<FetchEventView>) -> bool
    decreases events.len(),
{
    events.len() == 0 || (fetch_run_accepted(repo, out_dir, events.drop_last()) && spec_fetch_accepts(
        spec_fetch_run(repo, out_dir, events.drop_last()).0,
        events.last(),
    ))
}

/// The path a successful transfer wrote.
pub open spec fn fetched_path(e: FetchEventView) -> Seq<char> {
    match e {
        FetchEventView::Fetched(Ok(p)) => p,
        _ => Seq::empty(),
    }
}

/// The events from `from` up to `to` report successful transfers.
pub open spec fn fetches_ok(events: Seq<FetchEventView>, from: int, to: int) -> bool {
    forall|i: int| from <= i < to ==> #[trigger] events[i] matches FetchEventView::Fetched(Ok(_))
}

/// The paths the events from `from` up to `to` report.
pub open spec fn fetched_paths(events: Seq<FetchEventView>, from: int, to: int) -> Seq<Seq<char>> {
    Seq::new((to - from) as nat, |i: int| fetched_path(events[from + i]))
}

proof fn lemma_fetch_run_inv(repo: Seq<char>, out_dir: Seq<char>, events: Seq<FetchEventView>)
    requires
        fetch_run_accepted(repo, out_dir, events),
    ensures
        ({
            let n = events.len() as int;
            let (s, a) = spec_fetch_run(repo, out_dir, events);
            &&& n == 0 <==> s is Start
            &&& n > 0 ==> events[0] is Begin
            &&& s matches FetchStageView::Fetching(p) ==> 1 <= n <= DEFAULT_FILES.len() && fetches_ok(events, 1, n)
                && p == fetched_paths(events, 1, n) && a == FetchActionView::Fetch(
                default_fetch(repo, out_dir, n - 1),
            )
            &&& n > 0 && s is Finished ==> {
                ||| n == 3 && fetches_ok(events, 1, 3) && a == FetchActionView::Finish(
                    Ok(fetched_paths(events, 1, 3)),
                )
                ||| n >= 2 && fetches_ok(events, 1, n - 1) && (events[n - 1] matches FetchEventView::Fetched(
                    Err(e),
                ) && a == FetchActionView::Finish(Err(e)))
            }
        }),
    decreases events.len(),
{
    if events.len() > 0 {
        let prev = events.drop_last();
        lemma_fetch_run_inv(repo, out_dir, prev);
        let n = events.len() as int;
        assert forall|i: int| 0 <= i < n - 1 implies events[i] == prev[i] by {}
        if n >= 2 {
            assert(fetched_paths(events, 1, n) =~= fetched_paths(prev, 1, n - 1).push(fetched_path(events[n - 1])));
            assert(fetched_paths(events, 1, n - 1) =~= fetched_paths(prev, 1, n - 1));
        }
    }
}

/// Each transfer a download of the default model files asks for comes right after its
/// start or a successful transfer, and the `k`-th asks for the `k`-th default file from
/// the given repository: every file is asked for once, in order.
pub proof fn lemma_default_files_fetched_in_order(
    repo: Seq<char>,
    out_dir: Seq<char>,
    events: Seq<FetchEventView>,
)
    requires
        fetch_run_accepted(repo, out_dir, events),
        spec_fetch_run(repo, out_dir, events).1 is Fetch,
    ensures
        1 <= events.len() <= DEFAULT_FILES.len(),
        events[0] is Begin,
        fetches_ok(events, 1, events.len() as int),
        spec_fetch_run(repo, out_dir, events).1 == FetchActionView::Fetch(
            default_fetch(repo, out_dir, events.len() - 1),
        ),
{
    lemma_fetch_run_inv(repo, out_dir, events);
}

/// A download of the default model files that fails ends with the error of the first
/// transfer that failed, right after it, and asks for nothing more.
pub proof fn lemma_default_download_stops_at_failure(
    repo: Seq<char>,
    out_dir: Seq<char>,
    events: Seq<FetchEventView>,
    e: DownloadError,
)
    requires
        fetch_run_accepted(repo, out_dir, events),
        events.len() > 0,
        spec_fetch_run(repo, out_dir, events).1 == FetchActionView::Finish(Err(e)),
    ensures
        events.len() >= 2,
        fetches_ok(events, 1, events.len() - 1),
        events.last() == FetchEventView::Fetched(Err(e)),
        spec_fetch_run(repo, out_dir, events).0 is Finished,
        forall|next: FetchEventView| !#[trigger] spec_fetch_accepts(spec_fetch_run(repo, out_dir, events).0, next),
{
    lemma_fetch_run_inv(repo, out_dir, events);
}

/// A download of the default model files succeeds only after every default file was
/// transferred, and gives the paths the transfers wrote, in order.
pub proof fn lemma_default_download_success(
    repo: Seq<char>,
    out_dir: Seq<char>,
    events: Seq<FetchEventView>,
    paths: Seq<Seq<char>>,
)
    requires
        fetch_run_accepted(repo, out_dir, events),
        spec_fetch_run(repo, out_dir, events).1 == FetchActionView::Finish(Ok(paths)),
    ensures
        events.len() == DEFAULT_FILES.len() + 1,
        fetches_ok(events, 1, events.len() as int),
        paths == fetched_paths(events, 1, events.len() as int),
{
    lemma_fetch_run_inv(repo, out_dir, events);
}

/// Where the check for the default model files stands.
#[derive(Debug)]
pub enum EnsureStage {
    /// Nothing has happened yet.
    Start,
    /// Files are missing; waiting for the user's answer.
    Confirming,
    /// The user agreed; the default files are being downloaded.
    Downloading(FetchStage),
    /// The check is over.
    Finished,
}

/// The view of a check stage.
pub enum EnsureStageView {
    Start,
    Confirming,
    Downloading(FetchStageView),
    Finished,
}

impl EnsureStage {
    pub open spec fn view(self) -> EnsureStageView {
        match self {
            EnsureStage::Start => EnsureStageView::Start,
            EnsureStage::Confirming => EnsureStageView::Confirming,
            EnsureStage::Downloading(s) => EnsureStageView::Downloading(s.view()),
            EnsureStage::Finished => EnsureStageView::Finished,
        }
    }
}

/// What the caller reports to the check for the default model files.
#[derive(Debug)]
pub enum EnsureEvent {
    /// The check starts: whether each default file (in the order of `DEFAULT_FILES`) is
    /// already in the directory.
    Checked(Vec<bool>),
    /// The user's answer to the download prompt, or the error that prevented one.
    Answered(Result<bool, DownloadError>),
    /// The transfer asked for wrote this path, or failed with this error.
    Fetched(Result<String, DownloadError>),
}

/// The view of a check event.
pub enum EnsureEventView {
    Checked(Seq<bool>),
    Answered(Result<bool, DownloadError>),
    Fetched(Result<Seq<char>, DownloadError>),
}

impl EnsureEvent {
    pub open spec fn view(self) -> EnsureEventView {
        match self {
            EnsureEvent::Checked(p) => EnsureEventView::Checked(p@),
            EnsureEvent::Answered(a) => EnsureEventView::Answered(a),
            EnsureEvent::Fetched(r) => EnsureEventView::Fetched(fetched_view(r)),
        }
    }
}

/// What the check for the default model files asks the caller to do next.
#[derive(Debug)]
pub enum EnsureAction {
    /// Show this notice and ask whether to download.
    Confirm(String),
    /// Perform this transfer.
    Fetch(FetchRequest),
    /// The check is over: `None` when no file was missing, the downloaded paths when the
    /// missing files were downloaded, or why not.
    Finish(Result<Option<Vec<String>>, DownloadError>),
}

/// The view of a check action.
pub enum EnsureActionView {
    Confirm(Seq<char>),
    Fetch(FetchRequestView),
    Finish(Result<Option<Seq<Seq<char>>>, DownloadError>),
}

impl EnsureAction {
    pub open spec fn view(self) -> EnsureActionView {
        match self {
            EnsureAction::Confirm(n) => EnsureActionView::Confirm(n@),
            EnsureAction::Fetch(r) => EnsureActionView::Fetch(r.view()),
            EnsureAction::Finish(Ok(None)) => EnsureActionView::Finish(Ok(None)),
            EnsureAction::Finish(Ok(Some(p))) => EnsureActionView::Finish(Ok(Some(paths_view(p@)))),
            EnsureAction::Finish(Err(e)) => EnsureActionView::Finish(Err(e)),
        }
    }
}

/// The events each check stage waits for.
pub open spec fn spec_ensure_accepts(stage: EnsureStageView, event: EnsureEventView) -> bool {
    match stage {
        EnsureStageView::Start => event matches EnsureEventView::Checked(p) && p.len() == DEFAULT_FILES.len(),
        EnsureStageView::Confirming => event is Answered,
        EnsureStageView::Downloading(s) => match event {
            EnsureEventView::Fetched(r) => spec_fetch_accepts(s, FetchEventView::Fetched(r)),
            _ => false,
        },
        EnsureStageView::Finished => false,
    }
}

/// A step of the download inside the check, as a step of the check.
pub open spec fn lift_fetch(r: (FetchStageView, FetchActionView)) -> (EnsureStageView, EnsureActionView) {
    match r.1 {
        FetchActionView::Fetch(f) => (EnsureStageView::Downloading(r.0), EnsureActionView::Fetch(f)),
        FetchActionView::Finish(Ok(p)) => (EnsureStageView::Finished, EnsureActionView::Finish(Ok(Some(p)))),
        FetchActionView::Finish(Err(e)) => (EnsureStageView::Finished, EnsureActionView::Finish(Err(e))),
    }
}

/// One step of the check for the default model files in `out_dir`: finish at once when
/// none is missing; otherwise show the notice that lists the missing ones and ask; on a
/// yes, download all default files from `repo` (see `spec_fetch_step`); on a no, finish as
/// cancelled; when asking failed, finish with that error.
pub open spec fn spec_ensure_step(
    out_dir: Seq<char>,
    repo: Seq<char>,
    stage: EnsureStageView,
    event: EnsureEventView,
) -> (EnsureStageView, EnsureActionView) {
    match (stage, event) {
        (EnsureStageView::Start, EnsureEventView::Checked(present)) => {
            let missing = spec_missing_files(present);
            if missing.len() == 0 {
                (EnsureStageView::Finished, EnsureActionView::Finish(Ok(None)))
            } else {
                (EnsureStageView::Confirming, EnsureActionView::Confirm(spec_missing_notice(out_dir, missing)))
            }
        },
        (EnsureStageView::Confirming, EnsureEventView::Answered(Err(e))) => (
            EnsureStageView::Finished,
            EnsureActionView::Finish(Err(e)),
        ),
        (EnsureStageView::Confirming, EnsureEventView::Answered(Ok(yes))) => if yes {
            lift_fetch(spec_fetch_step(repo, out_dir, FetchStageView::Start, FetchEventView::Begin))
        } else {
            (EnsureStageView::Finished, EnsureActionView::Finish(Err(DownloadError::Cancelled)))
        },
        (EnsureStageView::Downloading(s), EnsureEventView::Fetched(r)) => lift_fetch(
            spec_fetch_step(repo, out_dir, s, FetchEventView::Fetched(r)),
        ),
        _ => (EnsureStageView::Finished, EnsureActionView::Finish(Err(DownloadError::NoneDownloaded))),
    }
}

fn lift_fetch_exec(r: (FetchStage, FetchAction)) -> (l: (EnsureStage, EnsureAction))
    ensures
        (l.0.view(), l.1.view()) == lift_fetch((r.0.view(), r.1.view())),
{
    match r.1 {
        FetchAction::Fetch(f) => (EnsureStage::Downloading(r.0), EnsureAction::Fetch(f)),
        FetchAction::Finish(Ok(p)) => (EnsureStage::Finished, EnsureAction::Finish(Ok(Some(p)))),
        FetchAction::Finish(Err(e)) => (EnsureStage::Finished, EnsureAction::Finish(Err(e))),
    }
}

fn missing_default_files(present: &Vec<bool>) -> (missing: Vec<&'static str>)
    requires
        present.len() == DEFAULT_FILES.len(),
    ensures
        missing@.map_values(|f: &str| f@) == spec_missing_files(present@),
{
    let files = DEFAULT_FILES;
    let mut missing: Vec<&'static str> = Vec::new();
    let mut i: usize = 0;
    while i < files.len()
        invariant
            files == DEFAULT_FILES,
            present.len() == files.len(),
            i <= files.len(),
            missing@.map_values(|f: &str| f@) == spec_missing_files(present@.take(i as int)),
        decreases files.len() - i,
    {
        proof {
            assert(present@.take(i + 1).drop_last() == present@.take(i as int));
        }
        if !present[i] {
            missing.push(files[i]);
            proof {
                assert(missing@.map_values(|f: &str| f@) == spec_missing_files(present@.take(i as int)).push(
                    DEFAULT_FILES[i as int]@,
                ));
            }
        }
        i = i + 1;
    }
    proof {
        assert(present@.take(present.len() as int) == present@);
    }
    missing
}

/// Advances the check for the default model files in `out_dir`, downloading them from
/// `repo` when missing and the user agrees (see `spec_ensure_step`); the caller shows
/// the notice, asks, performs each transfer asked for and reports back.
pub fn ensure_default_models(out_dir: &str, repo: &str, stage: EnsureStage, event: EnsureEvent) -> (r: (
    EnsureStage,
    EnsureAction,
))
    requires
        spec_ensure_accepts(stage.view(), event.view()),
    ensures
        (r.0.view(), r.1.view()) == spec_ensure_step(out_dir@, repo@, stage.view(), event.view()),
{
    match (stage, event) {
        (EnsureStage::Start, EnsureEvent::Checked(present)) => {
            let missing = missing_default_files(&present);
            if missing.len() == 0 {
                (EnsureStage::Finished, EnsureAction::Finish(Ok(None)))
            } else {
                (EnsureStage::Confirming, EnsureAction::Confirm(missing_notice(out_dir, &missing)))
            }
        },
        (EnsureStage::Confirming, EnsureEvent::Answered(Err(e))) => (
            EnsureStage::Finished,
            EnsureAction::Finish(Err(e)),
        ),
        (EnsureStage::Confirming, EnsureEvent::Answered(Ok(yes))) => {
            if yes {
                lift_fetch_exec(download_default_models(repo, out_dir, FetchStage::Start, FetchEvent::Begin))
            } else {
                (EnsureStage::Finished, EnsureAction::Finish(Err(DownloadError::Cancelled)))
            }
        },
        (EnsureStage::Downloading(s), EnsureEvent::Fetched(r)) => lift_fetch_exec(
            download_default_models(repo, out_dir, s, FetchEvent::Fetched(r)),
        ),
        _ => (EnsureStage::Finished, EnsureAction::Finish(Err(DownloadError::NoneDownloaded))),
    }
}
/// The stage and last action of a check for the default model files that received
/// `events`, in order.
pub open spec fn spec_ensure_run(out_dir: Seq<char>, repo: Seq<char>, events: Seq<EnsureEventView>) -> (
    EnsureStageView,
    EnsureActionView,
)
    decreases events.len(),
{
    if events.len() == 0 {
        (EnsureStageView::Start, EnsureActionView::Finish(Err(DownloadError::NoneDownloaded)))
    } else {
        spec_ensure_step(out_dir, repo, spec_ensure_run(out_dir, repo, events.drop_last()).0, events.last())
    }
}

/// Each of `events` was one the check waited for when it came.
pub open spec fn ensure_run_accepted(out_dir: Seq<char>, repo: Seq<char>, events: Seq<EnsureEventView>) -> bool
    decreases events.len(),
{
    events.len() == 0 || (ensure_run_accepted(out_dir, repo, events.drop_last()) && spec_ensure_accepts(
        spec_ensure_run(out_dir, repo, events.drop_last()).0,
        events.last(),
    ))
}

/// The presence flags a check started with.
pub open spec fn checked_flags(e: EnsureEventView) -> Seq<bool> {
    match e {
        EnsureEventView::Checked(p) => p,
        _ => Seq::empty(),
    }
}

/// The path a successful transfer wrote.
pub open spec fn ensure_fetched_path(e: EnsureEventView) -> Seq<char> {
    match e {
        EnsureEventView::Fetched(Ok(p)) => p,
        _ => Seq::empty(),
    }
}

/// The events from `from` up to `to` report successful transfers.
pub open spec fn ensure_fetches_ok(events: Seq<EnsureEventView>, from: int, to: int) -> bool {
    forall|i: int| from <= i < to ==> #[trigger] events[i] matches EnsureEventView::Fetched(Ok(_))
}

/// The paths the events from `from` up to `to` report.
pub open spec fn ensure_fetched_paths(events: Seq<EnsureEventView>, from: int, to: int) -> Seq<Seq<char>> {
    Seq::new((to - from) as nat, |i: int| ensure_fetched_path(events[from + i]))
}

proof fn lemma_ensure_run_inv(out_dir: Seq<char>, repo: Seq<char>, events: Seq<EnsureEventView>)
    requires
        ensure_run_accepted(out_dir, repo, events),
    ensures
        ({
            let n = events.len() as int;
            let (s, a) = spec_ensure_run(out_dir, repo, events);
            let missing = spec_missing_files(checked_flags(events[0]));
            &&& n == 0 <==> s is Start
            &&& n > 0 ==> events[0] is Checked && checked_flags(events[0]).len() == DEFAULT_FILES.len()
            &&& s is Confirming ==> n == 1 && missing.len() > 0 && a == EnsureActionView::Confirm(
                spec_missing_notice(out_dir, missing),
            )
            &&& s matches EnsureStageView::Downloading(fs) ==> 2 <= n <= DEFAULT_FILES.len() + 1 && missing.len()
                > 0 && events[1] == EnsureEventView::Answered(Ok(true)) && ensure_fetches_ok(events, 2, n) && fs
                == FetchStageView::Fetching(ensure_fetched_paths(events, 2, n)) && a == EnsureActionView::Fetch(
                default_fetch(repo, out_dir, n - 2),
            )
            &&& n > 0 && s is Finished ==> {
                ||| n == 1 && missing.len() == 0 && a == EnsureActionView::Finish(Ok(None))
                ||| n == 2 && missing.len() > 0 && events[1] == EnsureEventView::Answered(Ok(false)) && a
                    == EnsureActionView::Finish(Err(DownloadError::Cancelled))
                ||| n == 2 && missing.len() > 0 && (events[1] matches EnsureEventView::Answered(Err(e)) && a
                    == EnsureActionView::Finish(Err(e)))
                ||| n == 4 && missing.len() > 0 && events[1] == EnsureEventView::Answered(Ok(true))
                    && ensure_fetches_ok(events, 2, 4) && a == EnsureActionView::Finish(
                    Ok(Some(ensure_fetched_paths(events, 2, 4))),
                )
                ||| n >= 3 && missing.len() > 0 && events[1] == EnsureEventView::Answered(Ok(true))
                    && ensure_fetches_ok(events, 2, n - 1) && (events[n - 1] matches EnsureEventView::Fetched(
                    Err(e),
                ) && a == EnsureActionView::Finish(Err(e)))
            }
        }),
    decreases events.len(),
{
    if events.len() > 0 {
        let prev = events.drop_last();
        lemma_ensure_run_inv(out_dir, repo, prev);
        let n = events.len() as int;
        assert forall|i: int| 0 <= i < n - 1 implies events[i] == prev[i] by {}
        if n >= 3 {
            assert(ensure_fetched_paths(events, 2, n) =~= ensure_fetched_paths(prev, 2, n - 1).push(
                ensure_fetched_path(events[n - 1]),
            ));
            assert(ensure_fetched_paths(events, 2, n - 1) =~= ensure_fetched_paths(prev, 2, n - 1));
        }
        if n == 2 {
            assert(ensure_fetched_paths(events, 2, n) =~= Seq::<Seq<char>>::empty());
        }
    }
}

/// When every default model file is already there, the check ends at once with nothing
/// to report: it shows no prompt, transfers nothing and takes no further event.
pub proof fn lemma_nothing_missing_nothing_asked(
    out_dir: Seq<char>,
    repo: Seq<char>,
    events: Seq<EnsureEventView>,
)
    requires
        ensure_run_accepted(out_dir, repo, events),
        events.len() > 0,
        spec_missing_files(checked_flags(events[0])).len() == 0,
    ensures
        events.len() == 1,
        spec_ensure_run(out_dir, repo, events) == (EnsureStageView::Finished, EnsureActionView::Finish(Ok(None))),
{
    lemma_ensure_run_inv(out_dir, repo, events);
}

/// A check asks for a transfer only after files were found missing, the notice listing
/// them was shown and the user answered yes; the `k`-th transfer it asks for is of the
/// `k`-th default file from the given repository into the given directory, each right
/// after a successful one.
pub proof fn lemma_fetch_only_after_consent(
    out_dir: Seq<char>,
    repo: Seq<char>,
    events: Seq<EnsureEventView>,
)
    requires
        ensure_run_accepted(out_dir, repo, events),
        spec_ensure_run(out_dir, repo, events).1 is Fetch,
    ensures
        2 <= events.len() <= DEFAULT_FILES.len() + 1,
        spec_missing_files(checked_flags(events[0])).len() > 0,
        spec_ensure_run(out_dir, repo, events.take(1)).1 == EnsureActionView::Confirm(
            spec_missing_notice(out_dir, spec_missing_files(checked_flags(events[0]))),
        ),
        events[1] == EnsureEventView::Answered(Ok(true)),
        ensure_fetches_ok(events, 2, events.len() as int),
        spec_ensure_run(out_dir, repo, events).1 == EnsureActionView::Fetch(
            default_fetch(repo, out_dir, events.len() - 2),
        ),
{
    lemma_ensure_run_inv(out_dir, repo, events);
    let first = events.take(1);
    assert(first.drop_last() =~= Seq::<EnsureEventView>::empty());
    assert(spec_ensure_run(out_dir, repo, first.drop_last()).0 is Start);
    assert(first.last() == events[0]);
}

/// When the user does not answer yes, the check ends right there: cancelled on a no,
/// with the prompt's error when asking failed, and nothing is transferred.
pub proof fn lemma_declined_nothing_fetched(
    out_dir: Seq<char>,
    repo: Seq<char>,
    events: Seq<EnsureEventView>,
)
    requires
        ensure_run_accepted(out_dir, repo, events),
        events.len() >= 2,
        events[1] != EnsureEventView::Answered(Ok(true)),
    ensures
        events.len() == 2,
        spec_ensure_run(out_dir, repo, events).0 is Finished,
        events[1] == EnsureEventView::Answered(Ok(false)) ==> spec_ensure_run(out_dir, repo, events).1
            == EnsureActionView::Finish(Err(DownloadError::Cancelled)),
        events[1] matches EnsureEventView::Answered(Err(e)) ==> spec_ensure_run(out_dir, repo, events).1
            == EnsureActionView::Finish(Err(e)),
{
    lemma_ensure_run_inv(out_dir, repo, events);
    let two = events.take(2);
    assert(two.drop_last() =~= events.take(1));
    assert(ensure_run_accepted(out_dir, repo, two)) by {
        lemma_accepted_prefix(out_dir, repo, events, 2);
    }
    lemma_ensure_run_inv(out_dir, repo, two);
    assert(two[1] == events[1]);
    assert(two[0] == events[0]);
    if events.len() > 2 {
        lemma_accepted_prefix(out_dir, repo, events, 3);
        let three = events.take(3);
        assert(three.drop_last() =~= two);
    }
}

proof fn lemma_accepted_prefix(out_dir: Seq<char>, repo: Seq<char>, events: Seq<EnsureEventView>, k: int)
    requires
        ensure_run_accepted(out_dir, repo, events),
        0 <= k <= events.len(),
    ensures
        ensure_run_accepted(out_dir, repo, events.take(k)),
    decreases events.len(),
{
    if k < events.len() {
        lemma_accepted_prefix(out_dir, repo, events.drop_last(), k);
        assert(events.drop_last().take(k) =~= events.take(k));
    } else {
        assert(events.take(k) =~= events);
    }
}

/// A check downloads something only after the user agreed, and then reports the paths
/// every default file was written to, in order.
pub proof fn lemma_ensure_download_success(
    out_dir: Seq<char>,
    repo: Seq<char>,
    events: Seq<EnsureEventView>,
    paths: Seq<Seq<char>>,
)
    requires
        ensure_run_accepted(out_dir, repo, events),
        spec_ensure_run(out_dir, repo, events).1 == EnsureActionView::Finish(Ok(Some(paths))),
    ensures
        events.len() == DEFAULT_FILES.len() + 2,
        spec_missing_files(checked_flags(events[0])).len() > 0,
        events[1] == EnsureEventView::Answered(Ok(true)),
        ensure_fetches_ok(events, 2, events.len() as int),
        paths == ensure_fetched_paths(events, 2, events.len() as int),
{
    lemma_ensure_run_inv(out_dir, repo, events);
}

/// One line per downloaded file: its size as `HumanBytes` shows it, then its path.
pub open spec fn spec_summary_lines(paths: Seq<Seq<char>>, sizes: Seq<u64>) -> Seq<char>
    decreases paths.len(),
{
    if paths.len() == 0 || sizes.len() == 0 {
        Seq::empty()
    } else {
        spec_summary_lines(paths.drop_last(), sizes.drop_last()) + "  "@ + human_bytes_text(sizes.last())
            + "  "@ + paths.last() + "\n"@
    }
}

/// The download summary: a heading, then for each file its size and path.
pub open spec fn spec_summary_text(paths: Seq<Seq<char>>, sizes: Seq<u64>) -> Seq<char> {
    "\nDownload summary:\n"@ + spec_summary_lines(paths, sizes)
}

/// Builds the summary printed after downloads; `sizes[i]` is the size of the file at
/// `paths[i]` (0 when it could not be read).
pub fn summary_text(paths: &Vec<String>, sizes: &Vec<u64>) -> (text: String)
    requires
        paths.len() == sizes.len(),
    ensures
        text@ == spec_summary_text(paths@.map_values(|p: String| p@), sizes@),
{
    let mut text = String::from_str("\nDownload summary:\n");
    let mut i: usize = 0;
    while i < paths.len()
        invariant
            paths.len() == sizes.len(),
            i <= paths.len(),
            text@ == "\nDownload summary:\n"@ + spec_summary_lines(
                paths@.map_values(|p: String| p@).take(i as int),
                sizes@.take(i as int),
            ),
        decreases paths.len() - i,
    {
        proof {
            let all = paths@.map_values(|p: String| p@);
            assert(all.take(i + 1).drop_last() == all.take(i as int));
            assert(sizes@.take(i + 1).drop_last() == sizes@.take(i as int));
        }
        text.append("  ");
        let size = human_bytes(sizes[i]);
        text.append(size.as_str());
        text.append("  ");
        text.append(paths[i].as_str());
        text.append("\n");
        i = i + 1;
    }
    proof {
        let all = paths@.map_values(|p: String| p@);
        assert(all.take(paths.len() as int) == all);
        assert(sizes@.take(sizes.len() as int) == sizes@);
    }
    text
}

/// The files a download request names, or the default model files when it names none.
pub open spec fn spec_selected_files(files: Seq<Seq<char>>) -> Seq<Seq<char>> {
    if files.len() == 0 {
        seq![DEFAULT_FILES[0]@, DEFAULT_FILES[1]@]
    } else {
        files
    }
}

/// The paths that the successful transfers among `events` wrote, in order.
pub open spec fn spec_ok_paths(events: Seq<FetchEventView>) -> Seq<Seq<char>>
    decreases events.len(),
{
    if events.len() == 0 {
        Seq::empty()
    } else {
        let earlier = spec_ok_paths(events.drop_last());
        match events.last() {
            FetchEventView::Fetched(Ok(p)) => earlier.push(p),
            _ => earlier,
        }
    }
}

/// How a download of selected files ends: the paths written, or an error when not one
/// file could be downloaded.
pub open spec fn spec_selected_outcome(written: Seq<Seq<char>>) -> Result<Seq<Seq<char>>, DownloadError> {
    if written.len() == 0 {
        Err(DownloadError::NoneDownloaded)
    } else {
        Ok(written)
    }
}

/// The transfer of `file` from `repo` at `revision` into `out_dir`.
pub open spec fn file_fetch(repo: Seq<char>, file: Seq<char>, out_dir: Seq<char>, revision: Seq<char>) -> FetchRequestView {
    FetchRequestView { repo, file, out_dir, revision }
}

/// Where a download of selected files stands.
#[derive(Debug)]
pub enum SelectStage {
    /// Nothing has happened yet.
    Start,
    /// Waiting for the transfer of the selected file with this index; holds the paths
    /// written so far.
    Fetching(usize, Vec<String>),
    /// The download is over.
    Finished,
}

/// The view of a selected-files stage.
pub enum SelectStageView {
    Start,
    Fetching(int, Seq<Seq<char>>),
    Finished,
}

impl SelectStage {
    pub open spec fn view(self) -> SelectStageView {
        match self {
            SelectStage::Start => SelectStageView::Start,
            SelectStage::Fetching(k, p) => SelectStageView::Fetching(k as int, paths_view(p@)),
            SelectStage::Finished => SelectStageView::Finished,
        }
    }
}

/// The events each selected-files stage waits for.
pub open spec fn spec_select_accepts(selected: Seq<Seq<char>>, stage: SelectStageView, event: FetchEventView) -> bool {
    match stage {
        SelectStageView::Start => event is Begin,
        SelectStageView::Fetching(k, _) => event is Fetched && 0 <= k < selected.len(),
        SelectStageView::Finished => false,
    }
}

/// One step of downloading the `selected` files from `repo` at `revision` into `out_dir`:
/// each file in turn, going on past failures; after the last one, finish with the paths
/// written, or with an error when none was.
pub open spec fn spec_select_step(
    repo: Seq<char>,
    selected: Seq<Seq<char>>,
    out_dir: Seq<char>,
    revision: Seq<char>,
    stage: SelectStageView,
    event: FetchEventView,
) -> (SelectStageView, FetchActionView) {
    match (stage, event) {
        (SelectStageView::Start, FetchEventView::Begin) => (
            SelectStageView::Fetching(0, Seq::empty()),
            FetchActionView::Fetch(file_fetch(repo, selected[0], out_dir, revision)),
        ),
        (SelectStageView::Fetching(k, written), FetchEventView::Fetched(r)) => {
            let now = match r {
                Ok(p) => written.push(p),
                Err(_) => written,
            };
            if k + 1 == selected.len() {
                (SelectStageView::Finished, FetchActionView::Finish(spec_selected_outcome(now)))
            } else {
                (SelectStageView::Fetching(k + 1, now), FetchActionView::Fetch(
                    file_fetch(repo, selected[k + 1], out_dir, revision),
                ))
            }
        },
        _ => (SelectStageView::Finished, FetchActionView::Finish(Err(DownloadError::Cancelled))),
    }
}

fn selected_file(files: &Vec<String>, k: usize) -> (f: String)
    requires
        k < spec_selected_files(files@.map_values(|f: String| f@)).len(),
    ensures
        f@ == spec_selected_files(files@.map_values(|f: String| f@))[k as int],
{
    if files.len() == 0 {
        let defaults = DEFAULT_FILES;
        String::from_str(defaults[k])
    } else {
        files[k].clone()
    }
}

fn selected_count(files: &Vec<String>) -> (n: usize)
    ensures
        n == spec_selected_files(files@.map_values(|f: String| f@)).len(),
{
    if files.len() == 0 {
        DEFAULT_FILES.len()
    } else {
        files.len()
    }
}

/// Advances a download of the named files (the default model files when none is named)
/// from `repo` at `revision` into `out_dir` (see `spec_select_step`); the caller performs
/// each transfer asked for and reports its result.
pub fn download_selected_files(
    repo: &str,
    files: &Vec<String>,
    out_dir: &str,
    revision: &str,
    stage: SelectStage,
    event: FetchEvent,
) -> (r: (SelectStage, FetchAction))
    requires
        spec_select_accepts(spec_selected_files(files@.map_values(|f: String| f@)), stage.view(), event.view()),
    ensures
        (r.0.view(), r.1.view()) == spec_select_step(
            repo@,
            spec_selected_files(files@.map_values(|f: String| f@)),
            out_dir@,
            revision@,
            stage.view(),
            event.view(),
        ),
{
    let n = selected_count(files);
    match (stage, event) {
        (SelectStage::Start, FetchEvent::Begin) => {
            let none: Vec<String> = Vec::new();
            proof {
                assert(paths_view(none@) =~= Seq::<Seq<char>>::empty());
            }
            let f = selected_file(files, 0);
            (
                SelectStage::Fetching(0, none),
                FetchAction::Fetch(
                    FetchRequest {
                        repo: String::from_str(repo),
                        file: f,
                        out_dir: String::from_str(out_dir),
                        revision: String::from_str(revision),
                    },
                ),
            )
        },
        (SelectStage::Fetching(k, written), FetchEvent::Fetched(r)) => {
            let mut now = written;
            let ghost before = now@;
            match r {
                Ok(p) => {
                    now.push(p);
                    proof {
                        assert(paths_view(now@) =~= paths_view(before).push(p@));
                    }
                },
                Err(_) => {},
            }
            if k + 1 == n {
                if now.len() == 0 {
                    (SelectStage::Finished, FetchAction::Finish(Err(DownloadError::NoneDownloaded)))
                } else {
                    (SelectStage::Finished, FetchAction::Finish(Ok(now)))
                }
            } else {
                let f = selected_file(files, k + 1);
                (
                    SelectStage::Fetching(k + 1, now),
                    FetchAction::Fetch(
                        FetchRequest {
                            repo: String::from_str(repo),
                            file: f,
                            out_dir: String::from_str(out_dir),
                            revision: String::from_str(revision),
                        },
                    ),
                )
            }
        },
        _ => (SelectStage::Finished, FetchAction::Finish(Err(DownloadError::Cancelled))),
    }
}

/// The stage and last action of a download of selected files that received `events`.
pub open spec fn spec_select_run(
    repo: Seq<char>,
    selected: Seq<Seq<char>>,
    out_dir: Seq<char>,
    revision: Seq<char>,
    events: Seq<FetchEventView>,
) -> (SelectStageView, FetchActionView)
    decreases events.len(),
{
    if events.len() == 0 {
        (SelectStageView::Start, FetchActionView::Finish(Err(DownloadError::Cancelled)))
    } else {
        spec_select_step(
            repo,
            selected,
            out_dir,
            revision,
            spec_select_run(repo, selected, out_dir, revision, events.drop_last()).0,
            events.last(),
        )
    }
}

/// Each of `events` was one the download waited for when it came.
pub open spec fn select_run_accepted(
    repo: Seq<char>,
    selected: Seq<Seq<char>>,
    out_dir: Seq<char>,
    revision: Seq<char>,
    events: Seq<FetchEventView>,
) -> bool
    decreases events.len(),
{
    events.len() == 0 || (select_run_accepted(repo, selected, out_dir, revision, events.drop_last())
        && spec_select_accepts(
        selected,
        spec_select_run(repo, selected, out_dir, revision, events.drop_last()).0,
        events.last(),
    ))
}

proof fn lemma_select_run_inv(
    repo: Seq<char>,
    selected: Seq<Seq<char>>,
    out_dir: Seq<char>,
    revision: Seq<char>,
    events: Seq<FetchEventView>,
)
    requires
        select_run_accepted(repo, selected, out_dir, revision, events),
        selected.len() > 0,
    ensures
        ({
            let n = events.len() as int;
            let (s, a) = spec_select_run(repo, selected, out_dir, revision, events);
            &&& n == 0 <==> s is Start
            &&& n > 0 ==> events[0] is Begin
            &&& s matches SelectStageView::Fetching(k, written) ==> k == n - 1 && 0 <= k < selected.len()
                && written == spec_ok_paths(events.subrange(1, n)) && a == FetchActionView::Fetch(
                file_fetch(repo, selected[k], out_dir, revision),
            )
            &&& n > 0 && s is Finished ==> n == selected.len() + 1 && a == FetchActionView::Finish(
                spec_selected_outcome(spec_ok_paths(events.subrange(1, n))),
            )
        }),
    decreases events.len(),
{
    if events.len() > 0 {
        let prev = events.drop_last();
        lemma_select_run_inv(repo, selected, out_dir, revision, prev);
        let n = events.len() as int;
        assert(events[0] == prev[0] || n == 1);
        if n >= 2 {
            assert(events.subrange(1, n).drop_last() =~= prev.subrange(1, n - 1));
            assert(events.subrange(1, n).last() == events.last());
        } else {
            assert(events.subrange(1, n) =~= Seq::<FetchEventView>::empty());
        }
    }
}

/// A download of selected files asks for them one at a time in the order they were
/// named, each once, whatever the earlier transfers gave: the `k`-th transfer is of the
/// `k`-th selected file, from the given repository and revision into the given directory.
pub proof fn lemma_selected_files_in_order(
    repo: Seq<char>,
    files: Seq<Seq<char>>,
    out_dir: Seq<char>,
    revision: Seq<char>,
    events: Seq<FetchEventView>,
)
    requires
        select_run_accepted(repo, spec_selected_files(files), out_dir, revision, events),
        spec_select_run(repo, spec_selected_files(files), out_dir, revision, events).1 is Fetch,
    ensures
        1 <= events.len() <= spec_selected_files(files).len(),
        events[0] is Begin,
        spec_select_run(repo, spec_selected_files(files), out_dir, revision, events).1 == FetchActionView::Fetch(
            file_fetch(repo, spec_selected_files(files)[events.len() - 1], out_dir, revision),
        ),
{
    lemma_select_run_inv(repo, spec_selected_files(files), out_dir, revision, events);
}

/// A download of selected files ends only after every selected file was tried, with the
/// paths of the transfers that succeeded, in order, and fails exactly when none did.
pub proof fn lemma_selected_files_outcome(
    repo: Seq<char>,
    files: Seq<Seq<char>>,
    out_dir: Seq<char>,
    revision: Seq<char>,
    events: Seq<FetchEventView>,
)
    requires
        select_run_accepted(repo, spec_selected_files(files), out_dir, revision, events),
        events.len() > 0,
        spec_select_run(repo, spec_selected_files(files), out_dir, revision, events).1 is Finish,
    ensures
        events.len() == spec_selected_files(files).len() + 1,
        spec_select_run(repo, spec_selected_files(files), out_dir, revision, events).1 == FetchActionView::Finish(
            spec_selected_outcome(spec_ok_paths(events.subrange(1, events.len() as int))),
        ),
{
    lemma_select_run_inv(repo, spec_selected_files(files), out_dir, revision, events);
}

/// The event reports a successful transfer.
pub open spec fn is_success(e: FetchEventView) -> bool {
    e matches FetchEventView::Fetched(Ok(_))
}

/// The number of successful transfers among `events`.
pub open spec fn count_ok(events: Seq<FetchEventView>) -> nat
    decreases events.len(),
{
    if events.len() == 0 {
        0
    } else {
        count_ok(events.drop_last()) + if is_success(events.last()) {
            1nat
        } else {
            0nat
        }
    }
}

proof fn lemma_ok_paths_index(events: Seq<FetchEventView>)
    ensures
        spec_ok_paths(events).len() == count_ok(events),
        forall|i: int|
            0 <= i < events.len() && is_success(#[trigger] events[i]) ==> count_ok(
                events.take(i),
            ) < spec_ok_paths(events).len() && spec_ok_paths(events)[count_ok(events.take(i)) as int]
                == fetched_path(events[i]),
    decreases events.len(),
{
    if events.len() > 0 {
        let prev = events.drop_last();
        lemma_ok_paths_index(prev);
        let n = events.len() as int;
        assert(events.take(n - 1) =~= prev);
        assert forall|i: int|
            0 <= i < events.len() && is_success(#[trigger] events[i]) implies count_ok(
                events.take(i),
            ) < spec_ok_paths(events).len() && spec_ok_paths(events)[count_ok(events.take(i)) as int]
                == fetched_path(events[i]) by {
            if i < n - 1 {
                assert(events.take(i) =~= prev.take(i));
                assert(prev[i] == events[i]);
            }
        }
    }
}

/// After the transfer of the `k`-th selected file, a download goes on with the paths
/// written so far, plus the new one when the transfer succeeded: a failed transfer removes
/// nothing. After the last file it finishes with those paths, or with an error when there
/// are none.
pub proof fn lemma_failed_transfer_keeps_written(
    repo: Seq<char>,
    selected: Seq<Seq<char>>,
    out_dir: Seq<char>,
    revision: Seq<char>,
    k: int,
    written: Seq<Seq<char>>,
    result: Result<Seq<char>, DownloadError>,
)
    requires
        0 <= k < selected.len(),
    ensures
        ({
            let (stage, action) = spec_select_step(
                repo,
                selected,
                out_dir,
                revision,
                SelectStageView::Fetching(k, written),
                FetchEventView::Fetched(result),
            );
            let now = match result {
                Ok(p) => written.push(p),
                Err(_) => written,
            };
            &&& now.len() >= written.len()
            &&& forall|j: int| 0 <= j < written.len() ==> now[j] == written[j]
            &&& k + 1 < selected.len() ==> stage == SelectStageView::Fetching(k + 1, now) && action
                == FetchActionView::Fetch(file_fetch(repo, selected[k + 1], out_dir, revision))
            &&& k + 1 == selected.len() ==> stage is Finished && (now.len() == 0 ==> action
                == FetchActionView::Finish(Err(DownloadError::NoneDownloaded))) && (now.len() > 0 ==> action
                == FetchActionView::Finish(Ok(now)))
        }),
{
}

/// A download of selected files that ended reports every successful transfer: as many
/// paths as transfers succeeded, the path of the `m`-th success at index `m`, so in order
/// and with none dropped by a later failure; it fails exactly when no transfer succeeded.
pub proof fn lemma_selected_files_keep_every_success(
    repo: Seq<char>,
    files: Seq<Seq<char>>,
    out_dir: Seq<char>,
    revision: Seq<char>,
    events: Seq<FetchEventView>,
)
    requires
        select_run_accepted(repo, spec_selected_files(files), out_dir, revision, events),
        events.len() > 0,
        spec_select_run(repo, spec_selected_files(files), out_dir, revision, events).1 is Finish,
    ensures
        ({
            let results = events.subrange(1, events.len() as int);
            let outcome = spec_select_run(repo, spec_selected_files(files), out_dir, revision, events).1;
            &&& results.len() == spec_selected_files(files).len()
            &&& count_ok(results) == 0 <==> outcome == FetchActionView::Finish(Err(DownloadError::NoneDownloaded))
            &&& count_ok(results) > 0 ==> (outcome matches FetchActionView::Finish(Ok(paths)) && paths.len()
                == count_ok(results) && forall|i: int|
                0 <= i < results.len() && is_success(#[trigger] results[i]) ==> paths[count_ok(results.take(i)) as int]
                    == fetched_path(results[i]))
        }),
{
    lemma_select_run_inv(repo, spec_selected_files(files), out_dir, revision, events);
    let results = events.subrange(1, events.len() as int);
    lemma_ok_paths_index(results);
}

/// A reply to a yes/no prompt means yes: after trimming and lowercasing it is empty, `y`
/// or `yes`.
pub open spec fn spec_is_yes(reply: Seq<char>) -> bool {
    let t = spec_to_lowercase(spec_trim(reply));
    t.len() == 0 || t == "y"@ || t == "yes"@
}

/// Reads a reply to a `[Y/n]` prompt (Enter alone means yes).
pub fn is_yes_answer(reply: &str) -> (yes: bool)
    ensures
        yes == spec_is_yes(reply@),
{
    let lower = str_to_lowercase(str_trim(reply));
    let t = lower.as_str();
    t.is_empty() || str_equal(t, "y") || str_equal(t, "yes")
}

} // verus!
