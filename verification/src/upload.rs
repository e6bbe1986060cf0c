//! The upload of one video: two requests that hand the file over, then
//! repeated checks until the service has processed it.
//!
//! The requests themselves are the caller's work. This module says what is
//! sent where, reads each answer, and decides after each check whether the
//! upload is done, has failed, or is to be checked again after a pause.

use crate::gemini::{GeminiFileStatus, SERVICE};
use crate::paths::{file_name, file_name_of};
use crate::text::{counted, counted_text, decimal, decimal_text, same_text};
use vstd::prelude::*;

verus! {

/// The number of checks after which an upload that is still being processed
/// is given up.
pub const MAX_RETRIES: usize = 60;

/// The pause, in seconds, between one check and the next. It is the same
/// after every check that does not end the upload, so the checks allowed
/// span ten minutes.
pub const CHECK_INTERVAL: u64 = 10;

/// Why an upload failed.
#[derive(Debug, Clone)]
pub enum UploadError {
    /// The service refused to open the upload; this is what it answered.
    StartFailed(String),
    /// The service opened the upload but named no address to send the file to.
    NoUploadUrl,
    /// The service refused the file; this is what it answered.
    SendFailed(String),
    /// The service refused a check; this is what it answered.
    StatusFailed(String),
    /// The file is ready but the service named no address for it.
    ActiveWithoutUri,
    /// The file was still in processing after the last check allowed.
    Timeout,
    /// The service still named no state after the last check allowed.
    TimeoutWithoutState,
    /// The service failed to process the file.
    ProcessingFailed,
    /// The service named a state that is not known.
    UnknownState(String),
}

/// The model of an `UploadError`.
pub ghost enum UploadErrorModel {
    StartFailed(Seq<char>),
    NoUploadUrl,
    SendFailed(Seq<char>),
    StatusFailed(Seq<char>),
    ActiveWithoutUri,
    Timeout,
    TimeoutWithoutState,
    ProcessingFailed,
    UnknownState(Seq<char>),
}

impl DeepView for UploadError {
    type V = UploadErrorModel;

    open spec fn deep_view(&self) -> UploadErrorModel {
        match self {
            UploadError::StartFailed(body) => UploadErrorModel::StartFailed(body@),
            UploadError::NoUploadUrl => UploadErrorModel::NoUploadUrl,
            UploadError::SendFailed(body) => UploadErrorModel::SendFailed(body@),
            UploadError::StatusFailed(body) => UploadErrorModel::StatusFailed(body@),
            UploadError::ActiveWithoutUri => UploadErrorModel::ActiveWithoutUri,
            UploadError::Timeout => UploadErrorModel::Timeout,
            UploadError::TimeoutWithoutState => UploadErrorModel::TimeoutWithoutState,
            UploadError::ProcessingFailed => UploadErrorModel::ProcessingFailed,
            UploadError::UnknownState(state) => UploadErrorModel::UnknownState(state@),
        }
    }
}

/// The words that report `error`.
pub open spec fn upload_error_text(error: UploadErrorModel) -> Seq<char> {
    match error {
        UploadErrorModel::StartFailed(body) => "Failed to start resumable upload: "@ + body,
        UploadErrorModel::NoUploadUrl => "Did not receive upload URL"@,
        UploadErrorModel::SendFailed(body) => "Failed to upload file content: "@ + body,
        UploadErrorModel::StatusFailed(body) => "Failed to get file status: "@ + body,
        UploadErrorModel::ActiveWithoutUri => "File is ACTIVE but URI is missing."@,
        UploadErrorModel::Timeout => "File processing timeout."@,
        UploadErrorModel::TimeoutWithoutState => "File processing timeout (no state)."@,
        UploadErrorModel::ProcessingFailed => "File processing failed on the server."@,
        UploadErrorModel::UnknownState(state) => "Unknown file state received: "@ + state,
    }
}

impl UploadError {
    /// The words that report the error.
    pub fn message(&self) -> (r: String)
        ensures
            r@ == upload_error_text(self.deep_view()),
    {
        match self {
            UploadError::StartFailed(body) => {
                let mut text = String::from_str("Failed to start resumable upload: ");
                text.append(body.as_str());
                text
            },
            UploadError::NoUploadUrl => String::from_str("Did not receive upload URL"),
            UploadError::SendFailed(body) => {
                let mut text = String::from_str("Failed to upload file content: ");
                text.append(body.as_str());
                text
            },
            UploadError::StatusFailed(body) => {
                let mut text = String::from_str("Failed to get file status: ");
                text.append(body.as_str());
                text
            },
            UploadError::ActiveWithoutUri => String::from_str("File is ACTIVE but URI is missing."),
            UploadError::Timeout => String::from_str("File processing timeout."),
            UploadError::TimeoutWithoutState => String::from_str(
                "File processing timeout (no state).",
            ),
            UploadError::ProcessingFailed => String::from_str(
                "File processing failed on the server.",
            ),
            UploadError::UnknownState(state) => {
                let mut text = String::from_str("Unknown file state received: ");
                text.append(state.as_str());
                text
            },
        }
    }
}

/// The name under which the file at `path` is shown to the service.
pub open spec fn display_name(path: Seq<char>) -> Seq<char> {
    match file_name_of(path) {
        Some(name) => name,
        None => "unnamed_video"@,
    }
}

/// The name under which a file is shown to the service, given its file name.
pub fn display_name_for(name: Option<String>) -> (r: String)
    ensures
        r@ == match name {
            Some(n) => n@,
            None => "unnamed_video"@,
        },
{
    match name {
        Some(n) => n,
        None => String::from_str("unnamed_video"),
    }
}

/// The name under which the file at `path` is shown to the service: its
/// file name, or a stand-in where it has none.
pub fn upload_display_name(path: &str) -> (r: String)
    ensures
        r@ == display_name(path@),
{
    display_name_for(file_name(path))
}

/// Where an upload is opened.
pub open spec fn start_url(api_key: Seq<char>) -> Seq<char> {
    SERVICE@ + "upload/v1beta/files?key="@ + api_key
}

/// Where the state of the uploaded file `name` is asked for.
pub open spec fn status_url(name: Seq<char>, api_key: Seq<char>) -> Seq<char> {
    SERVICE@ + "v1beta/"@ + name + "?key="@ + api_key
}

/// Where an upload is opened.
pub fn build_start_url(api_key: &str) -> (r: String)
    ensures
        r@ == start_url(api_key@),
{
    let mut url = String::from_str(SERVICE);
    url.append("upload/v1beta/files?key=");
    url.append(api_key);
    url
}

/// Where the state of the uploaded file `name` is asked for.
pub fn build_status_url(name: &str, api_key: &str) -> (r: String)
    ensures
        r@ == status_url(name@, api_key@),
{
    let mut url = String::from_str(SERVICE);
    url.append("v1beta/");
    url.append(name);
    url.append("?key=");
    url.append(api_key);
    url
}

/// The headers of the request that opens an upload of `file_size` bytes.
pub open spec fn start_headers(file_size: nat, mime_type: Seq<char>) -> Seq<
    (Seq<char>, Seq<char>),
> {
    seq![
        ("X-Goog-Upload-Protocol"@, "resumable"@),
        ("X-Goog-Upload-Command"@, "start"@),
        ("X-Goog-Upload-Header-Content-Length"@, decimal_text(file_size)),
        ("X-Goog-Upload-Header-Content-Type"@, mime_type),
        ("Content-Type"@, "application/json"@),
    ]
}

/// The headers of the request that sends the `file_size` bytes of the file.
pub open spec fn send_headers(file_size: nat) -> Seq<(Seq<char>, Seq<char>)> {
    seq![
        ("Content-Length"@, decimal_text(file_size)),
        ("X-Goog-Upload-Offset"@, "0"@),
        ("X-Goog-Upload-Command"@, "upload, finalize"@),
    ]
}

fn header(name: &str, value: String) -> (r: (String, String))
    ensures
        r.deep_view() == (name@, value@),
{
    (String::from_str(name), value)
}

/// The headers of the request that opens an upload of `file_size` bytes.
pub fn build_start_headers(file_size: u64, mime_type: &str) -> (r: Vec<(String, String)>)
    ensures
        r.deep_view() == start_headers(file_size as nat, mime_type@),
{
    let mut headers: Vec<(String, String)> = Vec::new();
    headers.push(header("X-Goog-Upload-Protocol", String::from_str("resumable")));
    headers.push(header("X-Goog-Upload-Command", String::from_str("start")));
    headers.push(header("X-Goog-Upload-Header-Content-Length", decimal(file_size)));
    headers.push(header("X-Goog-Upload-Header-Content-Type", String::from_str(mime_type)));
    headers.push(header("Content-Type", String::from_str("application/json")));
    assert(headers.deep_view() =~= start_headers(file_size as nat, mime_type@));
    headers
}

/// The headers of the request that sends the `file_size` bytes of the file.
pub fn build_send_headers(file_size: u64) -> (r: Vec<(String, String)>)
    ensures
        r.deep_view() == send_headers(file_size as nat),
{
    let mut headers: Vec<(String, String)> = Vec::new();
    headers.push(header("Content-Length", decimal(file_size)));
    headers.push(header("X-Goog-Upload-Offset", String::from_str("0")));
    headers.push(header("X-Goog-Upload-Command", String::from_str("upload, finalize")));
    assert(headers.deep_view() =~= send_headers(file_size as nat));
    headers
}

/// Reads the answer to the request that opens an upload: the address to
/// send the file to, or why there is none.
pub fn read_start(success: bool, body: String, upload_url: Option<String>) -> (r: Result<
    String,
    UploadError,
>)
    ensures
        match r {
            Ok(address) => success && upload_url.deep_view() == Some(address@),
            Err(error) => error.deep_view() == if !success {
                UploadErrorModel::StartFailed(body@)
            } else {
                UploadErrorModel::NoUploadUrl
            } && (!success || upload_url is None),
        },
{
    if !success {
        Err(UploadError::StartFailed(body))
    } else {
        match upload_url {
            Some(url) => Ok(url),
            None => Err(UploadError::NoUploadUrl),
        }
    }
}

/// Reads the answer to the request that sends the file: nothing to report,
/// or why the file was refused.
pub fn read_send(success: bool, body: String) -> (r: Result<(), UploadError>)
    ensures
        match r {
            Ok(_) => success,
            Err(error) => !success && error.deep_view() == UploadErrorModel::SendFailed(body@),
        },
{
    if success {
        Ok(())
    } else {
        Err(UploadError::SendFailed(body))
    }
}

/// Reads the answer to a check before its content is looked at: nothing to
/// report, or why the check was refused.
pub fn read_check(success: bool, body: String) -> (r: Result<(), UploadError>)
    ensures
        match r {
            Ok(_) => success,
            Err(error) => !success && error.deep_view() == UploadErrorModel::StatusFailed(body@),
        },
{
    if success {
        Ok(())
    } else {
        Err(UploadError::StatusFailed(body))
    }
}

/// What follows a check.
#[derive(Debug, Clone)]
pub enum Verdict {
    /// The file is ready at this address.
    Ready(String),
    /// The file is not ready: check again after this many seconds.
    Wait(u64),
    /// The upload has failed.
    Failed(UploadError),
}

/// The model of a `Verdict`.
pub ghost enum VerdictModel {
    Ready(Seq<char>),
    Wait(u64),
    Failed(UploadErrorModel),
}

impl DeepView for Verdict {
    type V = VerdictModel;

    open spec fn deep_view(&self) -> VerdictModel {
        match self {
            Verdict::Ready(uri) => VerdictModel::Ready(uri@),
            Verdict::Wait(seconds) => VerdictModel::Wait(*seconds),
            Verdict::Failed(error) => VerdictModel::Failed(error.deep_view()),
        }
    }
}

/// The result of a check: what to tell the user, and what follows.
#[derive(Debug, Clone)]
pub struct Decision {
    pub notice: String,
    pub verdict: Verdict,
}

/// The model of a `Decision`.
pub ghost struct DecisionModel {
    pub notice: Seq<char>,
    pub verdict: VerdictModel,
}

impl DeepView for Decision {
    type V = DecisionModel;

    open spec fn deep_view(&self) -> DecisionModel {
        DecisionModel { notice: self.notice@, verdict: self.verdict.deep_view() }
    }
}

/// `prefix`, then the number of the check among those allowed.
pub open spec fn attempt_text(prefix: Seq<char>, retry_count: nat) -> Seq<char> {
    prefix + " ("@ + decimal_text(retry_count) + "/"@ + decimal_text(MAX_RETRIES as nat)
        + "回目)"@
}

/// What the user is told when check number `retry_count` begins.
pub open spec fn checking_notice(retry_count: nat) -> Seq<char> {
    attempt_text("ファイル処理状況を確認中..."@, retry_count)
}

/// What follows check number `retry_count`, which found the file in `state`
/// with the address `uri`.
pub open spec fn decided(retry_count: nat, state: Option<Seq<char>>, uri: Option<Seq<char>>) -> DecisionModel {
    match state {
        Some(s) => if s == "ACTIVE"@ {
            match uri {
                Some(u) => DecisionModel {
                    notice: "ファイル処理完了！ドキュメント生成準備中..."@,
                    verdict: VerdictModel::Ready(u),
                },
                None => DecisionModel {
                    notice: "エラー: ファイルは処理されましたがURIが見つかりません"@,
                    verdict: VerdictModel::Failed(UploadErrorModel::ActiveWithoutUri),
                },
            }
        } else if s == "PROCESSING"@ {
            if retry_count > MAX_RETRIES {
                DecisionModel {
                    notice: "タイムアウト: ファイル処理に時間がかかりすぎています"@,
                    verdict: VerdictModel::Failed(UploadErrorModel::Timeout),
                }
            } else {
                DecisionModel {
                    notice: attempt_text("ファイル処理中... 10秒後に再確認"@, retry_count),
                    verdict: VerdictModel::Wait(CHECK_INTERVAL),
                }
            }
        } else if s == "FAILED"@ {
            DecisionModel {
                notice: "エラー: サーバーでファイル処理に失敗しました"@,
                verdict: VerdictModel::Failed(UploadErrorModel::ProcessingFailed),
            }
        } else {
            DecisionModel {
                notice: "不明な状態: "@ + s,
                verdict: VerdictModel::Failed(UploadErrorModel::UnknownState(s)),
            }
        },
        None => if retry_count > MAX_RETRIES {
            DecisionModel {
                notice: "タイムアウト: ファイル状態の確認に失敗しました"@,
                verdict: VerdictModel::Failed(UploadErrorModel::TimeoutWithoutState),
            }
        } else {
            DecisionModel {
                notice: attempt_text("状態不明のためファイル処理中と仮定..."@, retry_count),
                verdict: VerdictModel::Wait(CHECK_INTERVAL),
            }
        },
    }
}

fn attempt(prefix: &str, retry_count: usize) -> (r: String)
    ensures
        r@ == attempt_text(prefix@, retry_count as nat),
{
    let mut text = String::from_str(prefix);
    text.append(" (");
    text.append(decimal(retry_count as u64).as_str());
    text.append("/");
    text.append(decimal(MAX_RETRIES as u64).as_str());
    text.append("回目)");
    text
}

/// The checks of one upload, counted.
#[derive(Debug, Clone)]
pub struct Poller {
    /// The number of checks begun so far.
    pub retry_count: usize,
}

impl Poller {
    /// Whether another check may begin: none has run past the last allowed.
    pub open spec fn may_check(&self) -> bool {
        self.retry_count <= MAX_RETRIES
    }

    /// The poller of an upload whose file has just been sent, with the notice
    /// that the wait begins.
    pub fn new() -> (r: (Poller, String))
        ensures
            r.0.retry_count == 0,
            r.0.may_check(),
            r.1@ == "ファイル処理の完了を待機中..."@,
    {
        (Poller { retry_count: 0 }, String::from_str("ファイル処理の完了を待機中..."))
    }

    /// Whether another check may begin.
    pub fn can_check(&self) -> (r: bool)
        ensures
            r == self.may_check(),
    {
        self.retry_count <= MAX_RETRIES
    }

    /// Counts a new check and gives the notice that it begins.
    pub fn begin_check(&mut self) -> (notice: String)
        requires
            old(self).may_check(),
        ensures
            final(self).retry_count == old(self).retry_count + 1,
            notice@ == checking_notice(final(self).retry_count as nat),
    {
        self.retry_count = self.retry_count + 1;
        attempt("ファイル処理状況を確認中...", self.retry_count)
    }

    /// Decides what follows the check just made, from the state that the
    /// service reported. Where the verdict is to wait, another check may
    /// begin.
    pub fn decide(&self, status: &GeminiFileStatus) -> (r: Decision)
        ensures
            r.deep_view() == decided(
                self.retry_count as nat,
                status.state.deep_view(),
                status.uri.deep_view(),
            ),
            r.verdict is Wait ==> self.may_check(),
            r.verdict is Wait ==> r.verdict == Verdict::Wait(CHECK_INTERVAL),
    {
        match &status.state {
            Some(state) => {
                if same_text(state.as_str(), "ACTIVE") {
                    match &status.uri {
                        Some(uri) => Decision {
                            notice: String::from_str(
                                "ファイル処理完了！ドキュメント生成準備中...",
                            ),
                            verdict: Verdict::Ready(uri.clone()),
                        },
                        None => Decision {
                            notice: String::from_str(
                                "エラー: ファイルは処理されましたがURIが見つかりません",
                            ),
                            verdict: Verdict::Failed(UploadError::ActiveWithoutUri),
                        },
                    }
                } else if same_text(state.as_str(), "PROCESSING") {
                    if self.retry_count > MAX_RETRIES {
                        Decision {
                            notice: String::from_str(
                                "タイムアウト: ファイル処理に時間がかかりすぎています",
                            ),
                            verdict: Verdict::Failed(UploadError::Timeout),
                        }
                    } else {
                        Decision {
                            notice: attempt("ファイル処理中... 10秒後に再確認", self.retry_count),
                            verdict: Verdict::Wait(CHECK_INTERVAL),
                        }
                    }
                } else if same_text(state.as_str(), "FAILED") {
                    Decision {
                        notice: String::from_str("エラー: サーバーでファイル処理に失敗しました"),
                        verdict: Verdict::Failed(UploadError::ProcessingFailed),
                    }
                } else {
                    let mut notice = String::from_str("不明な状態: ");
                    notice.append(state.as_str());
                    Decision {
                        notice,
                        verdict: Verdict::Failed(UploadError::UnknownState(state.clone())),
                    }
                }
            },
            None => {
                if self.retry_count > MAX_RETRIES {
                    Decision {
                        notice: String::from_str("タイムアウト: ファイル状態の確認に失敗しました"),
                        verdict: Verdict::Failed(UploadError::TimeoutWithoutState),
                    }
                } else {
                    Decision {
                        notice: attempt("状態不明のためファイル処理中と仮定...", self.retry_count),
                        verdict: Verdict::Wait(CHECK_INTERVAL),
                    }
                }
            },
        }
    }
}

/// No upload is checked more than `MAX_RETRIES + 1` times: after that many
/// checks every decision ends the upload.
pub proof fn lemma_polling_ends(
    retry_count: nat,
    state: Option<Seq<char>>,
    uri: Option<Seq<char>>,
)
    requires
        retry_count > MAX_RETRIES,
    ensures
        !(decided(retry_count, state, uri).verdict is Wait),
{
}

/// Every wait is of the one interval, whatever the service reported.
pub proof fn lemma_fixed_interval(
    retry_count: nat,
    state: Option<Seq<char>>,
    uri: Option<Seq<char>>,
)
    ensures
        decided(retry_count, state, uri).verdict is Wait ==> decided(
            retry_count,
            state,
            uri,
        ).verdict == VerdictModel::Wait(CHECK_INTERVAL),
{
}

/// A check waits only on a file in processing or without a state, and
/// reports it ready only when the service calls it active and names its
/// address.
pub proof fn lemma_decision_follows_state(
    retry_count: nat,
    state: Option<Seq<char>>,
    uri: Option<Seq<char>>,
)
    ensures
        decided(retry_count, state, uri).verdict is Wait <==> retry_count <= MAX_RETRIES && (state
            is None || state == Some("PROCESSING"@)),
        decided(retry_count, state, uri).verdict is Ready <==> state == Some("ACTIVE"@) && uri
            is Some,
{
    reveal_strlit("ACTIVE");
    reveal_strlit("PROCESSING");
    reveal_strlit("FAILED");
    if state == Some("PROCESSING"@) {
        assert("PROCESSING"@.len() != "ACTIVE"@.len());
    }
}

} // verus!
