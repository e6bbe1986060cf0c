use document_encoder::file::{document_save_path, picked_name, picked_video_file};
use document_encoder::pipeline::{name_or_unknown, shown, Command, Outcome, Pipeline, Stage, Step};
use document_encoder::types::{
    default_frame_extraction_method, default_gemini_model, default_image_embed_frequency,
    default_language, default_temperature, default_video_quality, FrameExtractionMethod,
    ImageEmbedFrequency, VideoFile, VideoQuality,
};
use document_encoder::youtube::{
    conclude, document_file_name, document_path, save_failure, start_notice, Conclusion,
};

fn file(path: &str, name: &str) -> VideoFile {
    VideoFile { path: path.to_string(), name: name.to_string(), size: 1, duration: None }
}

fn notices(step: &Step) -> Vec<(String, usize, usize)> {
    step.notices.iter().map(|n| (n.message.clone(), n.step, n.total_steps)).collect()
}

fn note(message: &str, step: usize, total: usize) -> (String, usize, usize) {
    (message.to_string(), step, total)
}

fn text(t: &str) -> Outcome {
    Outcome::Text(t.to_string())
}

#[test]
fn a_run_without_files_finishes_at_once_with_an_empty_document() {
    let (pipeline, step) = Pipeline::start(vec![], true);
    assert_eq!(
        notices(&step),
        vec![
            note("ドキュメント生成を開始しています...", 0, 0),
            note("ドキュメント生成が完了しました！", 0, 0),
        ]
    );
    assert!(matches!(step.command, Command::Finish { document } if document.is_empty()));
    assert_eq!(pipeline.stage, Stage::Finished);
    assert_eq!(pipeline.total_steps, 0);
}

#[test]
fn a_run_over_one_file_takes_four_steps() {
    let (mut p, step) = Pipeline::start(vec![file("/v/a.mov", "a.mov")], false);
    assert_eq!(p.total_steps, 4);
    assert_eq!(
        notices(&step),
        vec![
            note("ドキュメント生成を開始しています...", 0, 4),
            note("ファイル分割処理中 (1/1): a.mov", 1, 4),
        ]
    );
    assert!(matches!(&step.command, Command::Split { path } if path == "/v/a.mov"));

    let outcome = Outcome::Segments(vec!["/v/a.mov".to_string()]);
    assert!(p.accepts(&outcome));
    assert!(!p.accepts(&text("x")));
    let step = p.advance(outcome);
    assert_eq!(notices(&step), vec![note("動画品質処理中 (1/1): a.mov", 2, 4)]);
    assert!(matches!(&step.command, Command::Encode { path } if path == "/v/a.mov"));

    assert!(!p.accepts(&Outcome::Segments(vec![])));
    let step = p.advance(text("/out/a_720p.mp4"));
    assert_eq!(notices(&step), vec![note("ファイルアップロード中 (1/1): a_720p.mp4", 3, 4)]);
    assert!(matches!(&step.command, Command::Upload { path } if path == "/out/a_720p.mp4"));

    let step = p.advance(text("files/1"));
    assert_eq!(notices(&step), vec![note("ドキュメント生成中 (1/1)", 4, 4)]);
    assert!(matches!(&step.command, Command::Generate { file_uri } if file_uri == "files/1"));

    let step = p.advance(text("# Document"));
    assert_eq!(notices(&step), vec![note("ドキュメント生成が完了しました！", 4, 4)]);
    assert!(matches!(&step.command, Command::Finish { document } if document == "# Document"));
    assert_eq!(p.stage, Stage::Finished);
    assert!(!p.accepts(&text("x")));
    assert!(!p.accepts(&Outcome::Failed("x".to_string())));
}

#[test]
fn a_run_over_two_files_merges_and_embeds() {
    let files = vec![file("/v/a.mov", "a.mov"), file("/v/b.mp4", "B")];
    let (mut p, step) = Pipeline::start(files, true);
    assert_eq!(p.total_steps, 9);
    assert_eq!(notices(&step)[1], note("ファイル分割処理中 (1/2): a.mov", 1, 9));

    let step = p.advance(Outcome::Segments(vec![
        "/v/a_segment_0.mp4".to_string(),
        "/v/a_segment_1.mp4".to_string(),
    ]));
    assert_eq!(notices(&step), vec![note("ファイル分割処理中 (2/2): B", 2, 9)]);
    assert!(matches!(&step.command, Command::Split { path } if path == "/v/b.mp4"));

    let step = p.advance(Outcome::Segments(vec![]));
    assert_eq!(p.split_files, vec!["/v/a_segment_0.mp4", "/v/a_segment_1.mp4", "/v/b.mp4"]);
    assert_eq!(notices(&step), vec![note("動画品質処理中 (1/3): a_segment_0.mp4", 3, 9)]);

    let step = p.advance(text("/o/0.mp4"));
    assert_eq!(notices(&step), vec![note("動画品質処理中 (2/3): a_segment_1.mp4", 4, 9)]);
    let step = p.advance(text("/o/1.mp4"));
    assert_eq!(notices(&step), vec![note("動画品質処理中 (3/3): b.mp4", 5, 9)]);
    let step = p.advance(text("/o/2.mp4"));
    assert_eq!(notices(&step), vec![note("ファイルアップロード中 (1/3): 0.mp4", 6, 9)]);
    let step = p.advance(text("u0"));
    assert!(matches!(&step.command, Command::Upload { path } if path == "/o/1.mp4"));
    let step = p.advance(text("u1"));
    assert!(matches!(&step.command, Command::Upload { path } if path == "/o/2.mp4"));
    let step = p.advance(text("u2"));
    assert_eq!(notices(&step), vec![note("ドキュメント生成中 (1/3)", 9, 9)]);
    assert!(matches!(&step.command, Command::Generate { file_uri } if file_uri == "u0"));
    let step = p.advance(text("d0"));
    assert_eq!(notices(&step), vec![note("ドキュメント生成中 (2/3)", 10, 9)]);
    let step = p.advance(text("d1"));
    assert_eq!(notices(&step), vec![note("ドキュメント生成中 (3/3)", 11, 9)]);
    let step = p.advance(text("d2"));
    assert_eq!(notices(&step), vec![note("複数のドキュメントを統合中...", 12, 9)]);
    assert!(matches!(&step.command, Command::Integrate { documents } if documents == &["d0", "d1", "d2"]));
    assert_eq!(p.stage, Stage::Integrating);

    let step = p.advance(text("merged [Screenshot: 1s]"));
    assert_eq!(notices(&step), vec![note("画像を処理中...", 9, 9)]);
    assert!(matches!(
        &step.command,
        Command::EmbedImages { document, video_paths }
            if document == "merged [Screenshot: 1s]" && video_paths == &["/o/0.mp4", "/o/1.mp4", "/o/2.mp4"]
    ));

    let step = p.advance(text("merged ![Screenshot 1](./images/image-1-1s.png)"));
    assert_eq!(notices(&step), vec![note("ドキュメント生成が完了しました！", 9, 9)]);
    assert!(matches!(&step.command, Command::Finish { document } if document == "merged ![Screenshot 1](./images/image-1-1s.png)"));
}

#[test]
fn a_failed_embedding_keeps_the_document() {
    let (mut p, _) = Pipeline::start(vec![file("/v/a.mov", "a.mov")], true);
    p.advance(Outcome::Segments(vec!["x".to_string()]));
    p.advance(text("/o/a.mp4"));
    p.advance(text("u"));
    let step = p.advance(text("doc"));
    assert!(matches!(&step.command, Command::EmbedImages { .. }));
    let step = p.advance(Outcome::Failed("no ffmpeg".to_string()));
    assert!(matches!(&step.command, Command::Finish { document } if document == "doc"));
    assert_eq!(notices(&step), vec![note("ドキュメント生成が完了しました！", 4, 4)]);
}

fn failure_at(stage: usize) -> String {
    let (mut p, _) = Pipeline::start(vec![file("/v/a.mov", "Clip A"), file("/v/b.mov", "Clip B")], false);
    let answers = vec![
        Outcome::Segments(vec![]),
        Outcome::Segments(vec![]),
        text("/o/a.mp4"),
        text("/o/b.mp4"),
        text("ua"),
        text("ub"),
        text("da"),
        text("db"),
        text("merged"),
    ];
    for (i, answer) in answers.into_iter().enumerate() {
        if i == stage {
            let step = p.advance(Outcome::Failed("boom".to_string()));
            assert!(step.notices.is_empty());
            assert_eq!(p.stage, Stage::Failed);
            return match step.command {
                Command::Fail { message } => message,
                _ => panic!("a failure was expected"),
            };
        }
        p.advance(answer);
    }
    panic!("no failure was injected")
}

#[test]
fn each_stage_reports_its_failure() {
    assert_eq!(failure_at(0), "Failed to process file Clip A: boom");
    assert_eq!(failure_at(1), "Failed to process file Clip B: boom");
    assert_eq!(failure_at(2), "Failed to encode video /v/a.mov: boom");
    assert_eq!(failure_at(3), "Failed to encode video /v/b.mov: boom");
    assert_eq!(failure_at(4), "Failed to upload file /o/a.mp4: boom");
    assert_eq!(failure_at(5), "Failed to upload file /o/b.mp4: boom");
    assert_eq!(failure_at(6), "Failed to generate document for file: boom");
    assert_eq!(failure_at(7), "Failed to generate document for file: boom");
    assert_eq!(failure_at(8), "Failed to integrate documents: boom");
}

#[test]
fn files_without_a_name_are_shown_as_unknown() {
    assert_eq!(shown("/v/a.mov"), "a.mov");
    assert_eq!(shown("/"), "不明なファイル");
    assert_eq!(name_or_unknown(None), "不明なファイル");
    assert_eq!(name_or_unknown(Some("x".to_string())), "x");
}

#[test]
fn defaults_are_as_documented() {
    assert_eq!(default_language(), "japanese");
    assert_eq!(default_gemini_model(), "gemini-2.5-pro");
    assert_eq!(default_video_quality(), VideoQuality::NoConversion);
    assert_eq!(default_image_embed_frequency(), ImageEmbedFrequency::Moderate);
    assert_eq!(default_frame_extraction_method(), FrameExtractionMethod::Standard);
    assert_eq!(default_temperature().to_bits(), 0.0f64.to_bits());
}

#[test]
fn picked_files_are_named_by_their_file_name() {
    let picked = picked_video_file("/videos/clip.mp4".to_string(), 42);
    assert_eq!(picked.path, "/videos/clip.mp4");
    assert_eq!(picked.name, "clip.mp4");
    assert_eq!(picked.size, 42);
    assert!(picked.duration.is_none());
    assert_eq!(picked_video_file("/".to_string(), 0).name, "Unknown");
    assert_eq!(picked_name(None), "Unknown");
    assert_eq!(document_save_path("/out", "doc.md"), "/out/doc.md");
    assert_eq!(document_save_path("/out", "/abs/doc.md"), "/abs/doc.md");
}

#[test]
fn youtube_documents_are_named_after_the_title() {
    assert_eq!(document_file_name("My  great video"), "My__great_video.md");
    assert_eq!(document_file_name(""), ".md");
    assert_eq!(document_path("/out", "A B"), "/out/A_B.md");
    assert_eq!(save_failure("disk full"), "Failed to save document: disk full");
    let first = start_notice();
    assert_eq!((first.message.as_str(), first.step, first.total_steps), ("YouTube動画の処理を開始しています...", 0, 1));
}

#[test]
fn youtube_runs_conclude_with_a_notice() {
    match conclude(Ok("doc".to_string())) {
        Conclusion::Save { notice, document } => {
            assert_eq!(document, "doc");
            assert_eq!(notice.message, "YouTube動画からのドキュメント生成が完了しました！");
            assert_eq!((notice.step, notice.total_steps), (1, 1));
        }
        Conclusion::Fail { .. } => panic!("a document was expected"),
    }
    match conclude(Err("quota".to_string())) {
        Conclusion::Fail { notice } => {
            assert_eq!(notice.message, "YouTube動画の処理に失敗しました: quota");
            assert_eq!((notice.step, notice.total_steps), (0, 1));
        }
        Conclusion::Save { .. } => panic!("a failure was expected"),
    }
}
