use document_encoder::gemini::GeminiFileStatus;
use document_encoder::upload::{
    build_send_headers, build_start_headers, build_start_url, build_status_url, read_check,
    read_send, read_start, upload_display_name, Poller, UploadError, Verdict, CHECK_INTERVAL,
    MAX_RETRIES,
};

fn status(state: Option<&str>, uri: Option<&str>) -> GeminiFileStatus {
    GeminiFileStatus {
        name: "files/abc".to_string(),
        display_name: None,
        mime_type: None,
        size_bytes: None,
        create_time: None,
        update_time: None,
        expiration_time: None,
        sha256_hash: None,
        uri: uri.map(|u| u.to_string()),
        state: state.map(|s| s.to_string()),
    }
}

fn pairs(headers: Vec<(String, String)>) -> Vec<(String, String)> {
    headers
}

#[test]
fn urls_are_built_from_the_key() {
    assert_eq!(
        build_start_url("KEY"),
        "https://generativelanguage.googleapis.com/upload/v1beta/files?key=KEY"
    );
    assert_eq!(
        build_status_url("files/abc", "KEY"),
        "https://generativelanguage.googleapis.com/v1beta/files/abc?key=KEY"
    );
}

#[test]
fn headers_carry_size_and_type() {
    let h = |a: &str, b: &str| (a.to_string(), b.to_string());
    assert_eq!(
        pairs(build_start_headers(1234567, "video/quicktime")),
        vec![
            h("X-Goog-Upload-Protocol", "resumable"),
            h("X-Goog-Upload-Command", "start"),
            h("X-Goog-Upload-Header-Content-Length", "1234567"),
            h("X-Goog-Upload-Header-Content-Type", "video/quicktime"),
            h("Content-Type", "application/json"),
        ]
    );
    assert_eq!(
        pairs(build_send_headers(0)),
        vec![
            h("Content-Length", "0"),
            h("X-Goog-Upload-Offset", "0"),
            h("X-Goog-Upload-Command", "upload, finalize"),
        ]
    );
}

#[test]
fn display_name_is_the_file_name() {
    assert_eq!(upload_display_name("/videos/clip.mp4"), "clip.mp4");
    assert_eq!(upload_display_name("clip.mp4"), "clip.mp4");
    assert_eq!(upload_display_name("/"), "unnamed_video");
    assert_eq!(upload_display_name(""), "unnamed_video");
    assert_eq!(upload_display_name("/videos/.."), "unnamed_video");
}

#[test]
fn start_answer_gives_the_address_or_the_reason() {
    assert_eq!(read_start(true, "".to_string(), Some("https://u".to_string())).unwrap(), "https://u");
    let refused = read_start(false, "denied".to_string(), Some("https://u".to_string())).unwrap_err();
    assert_eq!(refused.message(), "Failed to start resumable upload: denied");
    let missing = read_start(true, "ok".to_string(), None).unwrap_err();
    assert_eq!(missing.message(), "Did not receive upload URL");
}

#[test]
fn send_and_check_answers_report_refusals() {
    assert!(read_send(true, "x".to_string()).is_ok());
    assert_eq!(read_send(false, "too big".to_string()).unwrap_err().message(), "Failed to upload file content: too big");
    assert!(read_check(true, "x".to_string()).is_ok());
    assert_eq!(read_check(false, "gone".to_string()).unwrap_err().message(), "Failed to get file status: gone");
}

#[test]
fn every_error_has_its_words() {
    assert_eq!(UploadError::ActiveWithoutUri.message(), "File is ACTIVE but URI is missing.");
    assert_eq!(UploadError::Timeout.message(), "File processing timeout.");
    assert_eq!(UploadError::TimeoutWithoutState.message(), "File processing timeout (no state).");
    assert_eq!(UploadError::ProcessingFailed.message(), "File processing failed on the server.");
    assert_eq!(UploadError::UnknownState("X".to_string()).message(), "Unknown file state received: X");
}

#[test]
fn an_active_file_with_an_address_is_ready() {
    let (mut poller, notice) = Poller::new();
    assert_eq!(notice, "ファイル処理の完了を待機中...");
    assert_eq!(poller.begin_check(), "ファイル処理状況を確認中... (1/60回目)");
    let decision = poller.decide(&status(Some("ACTIVE"), Some("https://file")));
    assert_eq!(decision.notice, "ファイル処理完了！ドキュメント生成準備中...");
    assert!(matches!(decision.verdict, Verdict::Ready(uri) if uri == "https://file"));
}

#[test]
fn an_active_file_without_an_address_fails() {
    let (mut poller, _) = Poller::new();
    poller.begin_check();
    let decision = poller.decide(&status(Some("ACTIVE"), None));
    assert_eq!(decision.notice, "エラー: ファイルは処理されましたがURIが見つかりません");
    assert!(matches!(decision.verdict, Verdict::Failed(UploadError::ActiveWithoutUri)));
}

#[test]
fn a_failed_or_unknown_state_ends_the_upload() {
    let (mut poller, _) = Poller::new();
    poller.begin_check();
    let failed = poller.decide(&status(Some("FAILED"), Some("u")));
    assert_eq!(failed.notice, "エラー: サーバーでファイル処理に失敗しました");
    assert!(matches!(failed.verdict, Verdict::Failed(UploadError::ProcessingFailed)));
    let unknown = poller.decide(&status(Some("active"), Some("u")));
    assert_eq!(unknown.notice, "不明な状態: active");
    assert!(matches!(unknown.verdict, Verdict::Failed(UploadError::UnknownState(s)) if s == "active"));
}

#[test]
fn processing_waits_ten_seconds_until_the_checks_run_out() {
    let (mut poller, _) = Poller::new();
    for n in 1..=MAX_RETRIES {
        assert!(poller.can_check());
        assert_eq!(poller.begin_check(), format!("ファイル処理状況を確認中... ({}/60回目)", n));
        let decision = poller.decide(&status(Some("PROCESSING"), None));
        assert_eq!(decision.notice, format!("ファイル処理中... 10秒後に再確認 ({}/60回目)", n));
        assert!(matches!(decision.verdict, Verdict::Wait(10)));
    }
    assert!(poller.can_check());
    assert_eq!(poller.begin_check(), "ファイル処理状況を確認中... (61/60回目)");
    let last = poller.decide(&status(Some("PROCESSING"), None));
    assert_eq!(last.notice, "タイムアウト: ファイル処理に時間がかかりすぎています");
    assert!(matches!(last.verdict, Verdict::Failed(UploadError::Timeout)));
    assert!(!poller.can_check());
}

#[test]
fn a_missing_state_waits_the_same_interval_until_the_checks_run_out() {
    let (mut poller, _) = Poller::new();
    for n in 1..=MAX_RETRIES {
        poller.begin_check();
        let decision = poller.decide(&status(None, Some("u")));
        assert_eq!(decision.notice, format!("状態不明のためファイル処理中と仮定... ({}/60回目)", n));
        assert!(matches!(decision.verdict, Verdict::Wait(10)));
    }
    poller.begin_check();
    let last = poller.decide(&status(None, Some("u")));
    assert_eq!(last.notice, "タイムアウト: ファイル状態の確認に失敗しました");
    assert!(matches!(last.verdict, Verdict::Failed(UploadError::TimeoutWithoutState)));
}

#[test]
fn a_late_active_file_is_still_ready() {
    let (mut poller, _) = Poller::new();
    for _ in 0..=MAX_RETRIES {
        poller.begin_check();
    }
    let decision = poller.decide(&status(Some("ACTIVE"), Some("u")));
    assert!(matches!(decision.verdict, Verdict::Ready(_)));
}

#[test]
fn every_wait_is_of_the_one_interval() {
    assert_eq!(CHECK_INTERVAL, 10);
    assert_eq!(CHECK_INTERVAL * MAX_RETRIES as u64, 600);
    let (mut poller, _) = Poller::new();
    poller.begin_check();
    for reply in [status(Some("PROCESSING"), None), status(None, None), status(None, Some("u"))] {
        assert!(matches!(poller.decide(&reply).verdict, Verdict::Wait(CHECK_INTERVAL)));
    }
}
