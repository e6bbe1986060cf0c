//! The course of one document generation, from the picked files to the
//! finished document.
//!
//! The pipeline does no work itself. Each step names the one command that is
//! due and the notices to show before it; the caller carries the command out
//! and hands its outcome to `advance`, which gives the next step.

use crate::paths::{file_name, file_name_of};
use crate::text::{copy_texts, counted, counted_text};
use crate::types::{ProgressModel, ProgressUpdate, VideoFile, VideoFileModel};
use vstd::prelude::*;

verus! {

/// What the pipeline is waiting for.
#[derive(Debug, Clone, Copy, PartialEq, Eq, Structural)]
pub enum Stage {
    /// A file is being cut into segments of at most one hour.
    Splitting,
    /// A segment is being reduced to the target quality.
    Encoding,
    /// A processed file is being uploaded.
    Uploading,
    /// A document is being generated from one uploaded file.
    Generating,
    /// The documents are being merged into one.
    Integrating,
    /// Screenshot references are being replaced by images.
    EmbeddingImages,
    /// The document is ready.
    Finished,
    /// A command failed and the run ended.
    Failed,
}

/// How the last command ended.
#[derive(Debug, Clone)]
pub enum Outcome {
    /// The command failed, with this description.
    Failed(String),
    /// The segments that a split produced.
    Segments(Vec<String>),
    /// The path, URI or document that any other command produced.
    Text(String),
}

/// The model of an `Outcome`.
pub ghost enum OutcomeModel {
    Failed(Seq<char>),
    Segments(Seq<Seq<char>>),
    Text(Seq<char>),
}

impl DeepView for Outcome {
    type V = OutcomeModel;

    open spec fn deep_view(&self) -> OutcomeModel {
        match self {
            Outcome::Failed(reason) => OutcomeModel::Failed(reason@),
            Outcome::Segments(paths) => OutcomeModel::Segments(paths.deep_view()),
            Outcome::Text(text) => OutcomeModel::Text(text@),
        }
    }
}

/// The work that is due next.
#[derive(Debug, Clone)]
pub enum Command {
    /// Cut the video at `path` into segments if it is longer than an hour.
    Split { path: String },
    /// Reduce the video at `path` to the target quality if it exceeds it.
    Encode { path: String },
    /// Upload the video at `path`.
    Upload { path: String },
    /// Generate a document from the uploaded file `file_uri`.
    Generate { file_uri: String },
    /// Merge `documents` into one.
    Integrate { documents: Vec<String> },
    /// Replace the screenshot references of `document` by frames of the
    /// videos at `video_paths`.
    EmbedImages { document: String, video_paths: Vec<String> },
    /// Hand `document` to the user: the run succeeded.
    Finish { document: String },
    /// Report `message` to the user: the run failed.
    Fail { message: String },
}

/// The model of a `Command`.
pub ghost enum CommandModel {
    Split { path: Seq<char> },
    Encode { path: Seq<char> },
    Upload { path: Seq<char> },
    Generate { file_uri: Seq<char> },
    Integrate { documents: Seq<Seq<char>> },
    EmbedImages { document: Seq<char>, video_paths: Seq<Seq<char>> },
    Finish { document: Seq<char> },
    Fail { message: Seq<char> },
}

impl DeepView for Command {
    type V = CommandModel;

    open spec fn deep_view(&self) -> CommandModel {
        match self {
            Command::Split { path } => CommandModel::Split { path: path@ },
            Command::Encode { path } => CommandModel::Encode { path: path@ },
            Command::Upload { path } => CommandModel::Upload { path: path@ },
            Command::Generate { file_uri } => CommandModel::Generate { file_uri: file_uri@ },
            Command::Integrate { documents } => CommandModel::Integrate {
                documents: documents.deep_view(),
            },
            Command::EmbedImages { document, video_paths } => CommandModel::EmbedImages {
                document: document@,
                video_paths: video_paths.deep_view(),
            },
            Command::Finish { document } => CommandModel::Finish { document: document@ },
            Command::Fail { message } => CommandModel::Fail { message: message@ },
        }
    }
}

/// One step of the run: the notices to show, in order, and then the command
/// to carry out.
#[derive(Debug, Clone)]
pub struct Step {
    pub notices: Vec<ProgressUpdate>,
    pub command: Command,
}

/// The model of a `Step`.
pub ghost struct StepModel {
    pub notices: Seq<ProgressModel>,
    pub command: CommandModel,
}

impl DeepView for Step {
    type V = StepModel;

    open spec fn deep_view(&self) -> StepModel {
        StepModel { notices: self.notices.deep_view(), command: self.command.deep_view() }
    }
}

/// The state of one run.
#[derive(Debug, Clone)]
pub struct Pipeline {
    /// What the run is waiting for.
    pub stage: Stage,
    /// The index, within the current stage, of the item that is worked on.
    pub position: usize,
    /// How many commands have been announced so far.
    pub current_step: usize,
    /// How many commands the run was expected to take when it started.
    pub total_steps: usize,
    /// Whether screenshot references are replaced by images at the end.
    pub embed_images: bool,
    /// The files that the user picked.
    pub files: Vec<VideoFile>,
    /// The files after splitting.
    pub split_files: Vec<String>,
    /// The files after encoding.
    pub processed_files: Vec<String>,
    /// The uploaded files.
    pub file_uris: Vec<String>,
    /// The document of each uploaded file.
    pub documents: Vec<String>,
    /// The one document of the run, once there is one.
    pub document: String,
}

/// The model of a `Pipeline`.
pub ghost struct PipelineModel {
    pub stage: Stage,
    pub position: nat,
    pub current_step: nat,
    pub total_steps: nat,
    pub embed_images: bool,
    pub files: Seq<VideoFileModel>,
    pub split_files: Seq<Seq<char>>,
    pub processed_files: Seq<Seq<char>>,
    pub file_uris: Seq<Seq<char>>,
    pub documents: Seq<Seq<char>>,
    pub document: Seq<char>,
}

impl DeepView for Pipeline {
    type V = PipelineModel;

    open spec fn deep_view(&self) -> PipelineModel {
        PipelineModel {
            stage: self.stage,
            position: self.position as nat,
            current_step: self.current_step as nat,
            total_steps: self.total_steps as nat,
            embed_images: self.embed_images,
            files: self.files.deep_view(),
            split_files: self.split_files.deep_view(),
            processed_files: self.processed_files.deep_view(),
            file_uris: self.file_uris.deep_view(),
            documents: self.documents.deep_view(),
            document: self.document@,
        }
    }
}

/// The number of steps that a run over `files` files is expected to take:
/// four for each file, and one more to merge where there are several.
pub open spec fn expected_steps(files: nat) -> nat {
    files * 4 + if files > 1 {
        1nat
    } else {
        0nat
    }
}

/// The name shown for the file at `path`.
pub open spec fn shown_name(path: Seq<char>) -> Seq<char> {
    match file_name_of(path) {
        Some(name) => name,
        None => "不明なファイル"@,
    }
}

/// The files that stand for one picked file after its split: the segments
/// where there are several, else the file itself.
pub open spec fn kept_after_split(path: Seq<char>, segments: Seq<Seq<char>>) -> Seq<Seq<char>> {
    if segments.len() > 1 {
        segments
    } else {
        seq![path]
    }
}

/// The notice with `message` at the current step of `m`.
pub open spec fn notice_at(m: PipelineModel, message: Seq<char>) -> ProgressModel {
    ProgressModel { message, step: m.current_step, total_steps: m.total_steps }
}

/// The notice with `message` that shows the run as complete.
pub open spec fn closing_notice(m: PipelineModel, message: Seq<char>) -> ProgressModel {
    ProgressModel { message, step: m.total_steps, total_steps: m.total_steps }
}

/// The run ends well: the document is handed over.
pub open spec fn finished(m: PipelineModel, notices: Seq<ProgressModel>) -> (
    PipelineModel,
    StepModel,
) {
    (
        PipelineModel { stage: Stage::Finished, ..m },
        StepModel {
            notices: notices.push(closing_notice(m, "ドキュメント生成が完了しました！"@)),
            command: CommandModel::Finish { document: m.document },
        },
    )
}

/// The run ends badly, with `message`.
pub open spec fn failed(m: PipelineModel, message: Seq<char>) -> (PipelineModel, StepModel) {
    (
        PipelineModel { stage: Stage::Failed, ..m },
        StepModel { notices: Seq::empty(), command: CommandModel::Fail { message } },
    )
}

/// With the document at hand: images are embedded where that is asked for
/// and there is a video to take them from; else the run is finished.
pub open spec fn embed_or_finish(m: PipelineModel, notices: Seq<ProgressModel>) -> (
    PipelineModel,
    StepModel,
) {
    if m.embed_images && m.processed_files.len() > 0 {
        (
            PipelineModel { stage: Stage::EmbeddingImages, ..m },
            StepModel {
                notices: notices.push(closing_notice(m, "画像を処理中..."@)),
                command: CommandModel::EmbedImages {
                    document: m.document,
                    video_paths: m.processed_files,
                },
            },
        )
    } else {
        finished(m, notices)
    }
}

/// With every document generated: several are merged; one is the document;
/// none gives the empty document.
pub open spec fn integrate_or_conclude(m: PipelineModel, notices: Seq<ProgressModel>) -> (
    PipelineModel,
    StepModel,
) {
    if m.documents.len() > 1 {
        let next = PipelineModel {
            stage: Stage::Integrating,
            current_step: m.current_step + 1,
            ..m
        };
        (
            next,
            StepModel {
                notices: notices.push(notice_at(next, "複数のドキュメントを統合中..."@)),
                command: CommandModel::Integrate { documents: m.documents },
            },
        )
    } else {
        let document = if m.documents.len() == 1 {
            m.documents[0]
        } else {
            Seq::empty()
        };
        embed_or_finish(PipelineModel { document, ..m }, notices)
    }
}

/// The next document to generate, or what follows the last.
pub open spec fn next_generation(m: PipelineModel, notices: Seq<ProgressModel>) -> (
    PipelineModel,
    StepModel,
) {
    if m.position < m.file_uris.len() {
        let next = PipelineModel {
            stage: Stage::Generating,
            current_step: m.current_step + 1,
            ..m
        };
        (
            next,
            StepModel {
                notices: notices.push(
                    notice_at(
                        next,
                        counted_text("ドキュメント生成中"@, m.position + 1, m.file_uris.len()),
                    ),
                ),
                command: CommandModel::Generate { file_uri: m.file_uris[m.position as int] },
            },
        )
    } else {
        integrate_or_conclude(m, notices)
    }
}

/// The next file to upload, or what follows the last.
pub open spec fn next_upload(m: PipelineModel, notices: Seq<ProgressModel>) -> (
    PipelineModel,
    StepModel,
) {
    if m.position < m.processed_files.len() {
        let path = m.processed_files[m.position as int];
        let next = PipelineModel {
            stage: Stage::Uploading,
            current_step: m.current_step + 1,
            ..m
        };
        (
            next,
            StepModel {
                notices: notices.push(
                    notice_at(
                        next,
                        counted_text(
                            "ファイルアップロード中"@,
                            m.position + 1,
                            m.processed_files.len(),
                        ) + ": "@ + shown_name(path),
                    ),
                ),
                command: CommandModel::Upload { path },
            },
        )
    } else {
        next_generation(PipelineModel { stage: Stage::Generating, position: 0, ..m }, notices)
    }
}

/// The next file to encode, or what follows the last.
pub open spec fn next_encoding(m: PipelineModel, notices: Seq<ProgressModel>) -> (
    PipelineModel,
    StepModel,
) {
    if m.position < m.split_files.len() {
        let path = m.split_files[m.position as int];
        let next = PipelineModel {
            stage: Stage::Encoding,
            current_step: m.current_step + 1,
            ..m
        };
        (
            next,
            StepModel {
                notices: notices.push(
                    notice_at(
                        next,
                        counted_text("動画品質処理中"@, m.position + 1, m.split_files.len()) + ": "@
                            + shown_name(path),
                    ),
                ),
                command: CommandModel::Encode { path },
            },
        )
    } else {
        next_upload(PipelineModel { stage: Stage::Uploading, position: 0, ..m }, notices)
    }
}

/// The next file to split, or what follows the last.
pub open spec fn next_split(m: PipelineModel, notices: Seq<ProgressModel>) -> (
    PipelineModel,
    StepModel,
) {
    if m.position < m.files.len() {
        let file = m.files[m.position as int];
        let next = PipelineModel {
            stage: Stage::Splitting,
            current_step: m.current_step + 1,
            ..m
        };
        (
            next,
            StepModel {
                notices: notices.push(
                    notice_at(
                        next,
                        counted_text("ファイル分割処理中"@, m.position + 1, m.files.len()) + ": "@
                            + file.name,
                    ),
                ),
                command: CommandModel::Split { path: file.path },
            },
        )
    } else {
        next_encoding(PipelineModel { stage: Stage::Encoding, position: 0, ..m }, notices)
    }
}

/// The state before anything has happened.
pub open spec fn initial(files: Seq<VideoFileModel>, embed_images: bool) -> PipelineModel {
    PipelineModel {
        stage: Stage::Splitting,
        position: 0,
        current_step: 0,
        total_steps: expected_steps(files.len()),
        embed_images,
        files,
        split_files: Seq::empty(),
        processed_files: Seq::empty(),
        file_uris: Seq::empty(),
        documents: Seq::empty(),
        document: Seq::empty(),
    }
}

/// The first step of a run over `files`.
pub open spec fn started(files: Seq<VideoFileModel>, embed_images: bool) -> (
    PipelineModel,
    StepModel,
) {
    let m = initial(files, embed_images);
    next_split(m, seq![notice_at(m, "ドキュメント生成を開始しています..."@)])
}

/// Whether `outcome` can be the answer to the command that `m` waits for,
/// and the run can still count its steps after it.
pub open spec fn accepts(m: PipelineModel, outcome: OutcomeModel) -> bool {
    match m.stage {
        Stage::Splitting => match outcome {
            OutcomeModel::Failed(_) => true,
            OutcomeModel::Segments(segments) => m.files.len() + 3 * (m.split_files.len()
                + kept_after_split(m.files[m.position as int].path, segments).len()) + 1
                <= usize::MAX,
            OutcomeModel::Text(_) => false,
        },
        Stage::Encoding
        | Stage::Uploading
        | Stage::Generating
        | Stage::Integrating
        | Stage::EmbeddingImages => !(outcome is Segments),
        Stage::Finished | Stage::Failed => false,
    }
}

/// The state and the step that follow `m` on `outcome`.
pub open spec fn advanced(m: PipelineModel, outcome: OutcomeModel) -> (PipelineModel, StepModel) {
    match m.stage {
        Stage::Splitting => {
            let file = m.files[m.position as int];
            match outcome {
                OutcomeModel::Failed(reason) => failed(
                    m,
                    "Failed to process file "@ + file.name + ": "@ + reason,
                ),
                OutcomeModel::Segments(segments) => next_split(
                    PipelineModel {
                        split_files: m.split_files + kept_after_split(file.path, segments),
                        position: m.position + 1,
                        ..m
                    },
                    Seq::empty(),
                ),
                OutcomeModel::Text(_) => (m, arbitrary()),
            }
        },
        Stage::Encoding => match outcome {
            OutcomeModel::Failed(reason) => failed(
                m,
                "Failed to encode video "@ + m.split_files[m.position as int] + ": "@ + reason,
            ),
            OutcomeModel::Text(path) => next_encoding(
                PipelineModel {
                    processed_files: m.processed_files.push(path),
                    position: m.position + 1,
                    ..m
                },
                Seq::empty(),
            ),
            OutcomeModel::Segments(_) => (m, arbitrary()),
        },
        Stage::Uploading => match outcome {
            OutcomeModel::Failed(reason) => failed(
                m,
                "Failed to upload file "@ + m.processed_files[m.position as int] + ": "@ + reason,
            ),
            OutcomeModel::Text(uri) => next_upload(
                PipelineModel { file_uris: m.file_uris.push(uri), position: m.position + 1, ..m },
                Seq::empty(),
            ),
            OutcomeModel::Segments(_) => (m, arbitrary()),
        },
        Stage::Generating => match outcome {
            OutcomeModel::Failed(reason) => failed(
                m,
                "Failed to generate document for file: "@ + reason,
            ),
            OutcomeModel::Text(document) => next_generation(
                PipelineModel {
                    documents: m.documents.push(document),
                    position: m.position + 1,
                    ..m
                },
                Seq::empty(),
            ),
            OutcomeModel::Segments(_) => (m, arbitrary()),
        },
        Stage::Integrating => match outcome {
            OutcomeModel::Failed(reason) => failed(m, "Failed to integrate documents: "@ + reason),
            OutcomeModel::Text(document) => embed_or_finish(
                PipelineModel { document, ..m },
                Seq::empty(),
            ),
            OutcomeModel::Segments(_) => (m, arbitrary()),
        },
        Stage::EmbeddingImages => match outcome {
            OutcomeModel::Failed(_) => finished(m, Seq::empty()),
            OutcomeModel::Text(document) => finished(PipelineModel { document, ..m }, Seq::empty()),
            OutcomeModel::Segments(_) => (m, arbitrary()),
        },
        Stage::Finished | Stage::Failed => (m, arbitrary()),
    }
}

/// What holds of a run between two steps: the lists are filled as far as the
/// stage says, and the step counter is the number of commands announced.
pub open spec fn well_formed(m: PipelineModel) -> bool {
    let f = m.files.len();
    let s = m.split_files.len();
    &&& m.total_steps == expected_steps(f)
    &&& 4 * f + 1 <= usize::MAX
    &&& f + 3 * s + 1 <= usize::MAX
    &&& match m.stage {
        Stage::Splitting => {
            &&& m.position < f
            &&& m.current_step == m.position + 1
            &&& m.processed_files.len() == 0
            &&& m.file_uris.len() == 0
            &&& m.documents.len() == 0
        },
        Stage::Encoding => {
            &&& m.position < s
            &&& m.current_step == f + m.position + 1
            &&& m.processed_files.len() == m.position
            &&& m.file_uris.len() == 0
            &&& m.documents.len() == 0
        },
        Stage::Uploading => {
            &&& m.position < s
            &&& m.current_step == f + s + m.position + 1
            &&& m.processed_files.len() == s
            &&& m.file_uris.len() == m.position
            &&& m.documents.len() == 0
        },
        Stage::Generating => {
            &&& m.position < s
            &&& m.current_step == f + 2 * s + m.position + 1
            &&& m.processed_files.len() == s
            &&& m.file_uris.len() == s
            &&& m.documents.len() == m.position
        },
        Stage::Integrating => {
            &&& s > 1
            &&& m.current_step == f + 3 * s + 1
            &&& m.documents.len() == s
        },
        Stage::EmbeddingImages => m.embed_images && m.processed_files.len() > 0,
        Stage::Finished | Stage::Failed => true,
    }
}

/// What holds of the counters of a run at any time.
pub open spec fn counts_fit(m: PipelineModel) -> bool {
    &&& m.total_steps == expected_steps(m.files.len())
    &&& 4 * m.files.len() + 1 <= usize::MAX
    &&& m.files.len() + 3 * m.split_files.len() + 1 <= usize::MAX
}

impl Pipeline {
    /// What holds of a run between two steps.
    pub open spec fn wf(&self) -> bool {
        well_formed(self.deep_view())
    }

    fn notice(&self, message: String) -> (r: ProgressUpdate)
        ensures
            r.deep_view() == notice_at(self.deep_view(), message@),
    {
        ProgressUpdate { message, step: self.current_step, total_steps: self.total_steps }
    }

    fn closing(&self, message: &str) -> (r: ProgressUpdate)
        ensures
            r.deep_view() == closing_notice(self.deep_view(), message@),
    {
        ProgressUpdate {
            message: String::from_str(message),
            step: self.total_steps,
            total_steps: self.total_steps,
        }
    }

    fn fail(&mut self, message: String) -> (step: Step)
        ensures
            (final(self).deep_view(), step.deep_view()) == failed(
                old(self).deep_view(),
                message@,
            ),
            final(self).wf() == counts_fit(old(self).deep_view()),
    {
        self.stage = Stage::Failed;
        let notices: Vec<ProgressUpdate> = Vec::new();
        assert(notices.deep_view() == Seq::<ProgressModel>::empty());
        Step { notices, command: Command::Fail { message } }
    }

    fn finish(&mut self, notices: Vec<ProgressUpdate>) -> (step: Step)
        ensures
            (final(self).deep_view(), step.deep_view()) == finished(
                old(self).deep_view(),
                notices.deep_view(),
            ),
            final(self).wf() == counts_fit(old(self).deep_view()),
    {
        let mut notices = notices;
        let ghost before = notices.deep_view();
        let last = self.closing("ドキュメント生成が完了しました！");
        notices.push(last);
        assert(notices.deep_view() == before.push(last.deep_view()));
        self.stage = Stage::Finished;
        Step { notices, command: Command::Finish { document: self.document.clone() } }
    }

    fn embed_or_finish(&mut self, notices: Vec<ProgressUpdate>) -> (step: Step)
        ensures
            (final(self).deep_view(), step.deep_view()) == embed_or_finish(
                old(self).deep_view(),
                notices.deep_view(),
            ),
            final(self).wf() == counts_fit(old(self).deep_view()),
    {
        if self.embed_images && self.processed_files.len() > 0 {
            let mut notices = notices;
            let ghost before = notices.deep_view();
            let last = self.closing("画像を処理中...");
            notices.push(last);
            assert(notices.deep_view() == before.push(last.deep_view()));
            self.stage = Stage::EmbeddingImages;
            Step {
                notices,
                command: Command::EmbedImages {
                    document: self.document.clone(),
                    video_paths: copy_texts(self.processed_files.as_slice()),
                },
            }
        } else {
            self.finish(notices)
        }
    }

    fn integrate_or_conclude(&mut self, notices: Vec<ProgressUpdate>) -> (step: Step)
        requires
            counts_fit(old(self).deep_view()),
            old(self).current_step == old(self).files.len() + 3 * old(self).split_files.len(),
            old(self).documents.len() == old(self).split_files.len(),
        ensures
            (final(self).deep_view(), step.deep_view()) == integrate_or_conclude(
                old(self).deep_view(),
                notices.deep_view(),
            ),
            final(self).wf(),
    {
        if self.documents.len() > 1 {
            let mut notices = notices;
            let ghost before = notices.deep_view();
            self.stage = Stage::Integrating;
            self.current_step = self.current_step + 1;
            let last = self.notice(String::from_str("複数のドキュメントを統合中..."));
            notices.push(last);
            assert(notices.deep_view() == before.push(last.deep_view()));
            Step {
                notices,
                command: Command::Integrate { documents: copy_texts(self.documents.as_slice()) },
            }
        } else {
            if self.documents.len() == 1 {
                self.document = self.documents[0].clone();
            } else {
                self.document = String::new();
            }
            self.embed_or_finish(notices)
        }
    }

    fn next_generation(&mut self, notices: Vec<ProgressUpdate>) -> (step: Step)
        requires
            counts_fit(old(self).deep_view()),
            old(self).position <= old(self).split_files.len(),
            old(self).current_step == old(self).files.len() + 2 * old(self).split_files.len()
                + old(self).position,
            old(self).processed_files.len() == old(self).split_files.len(),
            old(self).file_uris.len() == old(self).split_files.len(),
            old(self).documents.len() == old(self).position,
        ensures
            (final(self).deep_view(), step.deep_view()) == next_generation(
                old(self).deep_view(),
                notices.deep_view(),
            ),
            final(self).wf(),
    {
        if self.position < self.file_uris.len() {
            let mut notices = notices;
            let ghost before = notices.deep_view();
            self.stage = Stage::Generating;
            self.current_step = self.current_step + 1;
            let last = self.notice(
                counted("ドキュメント生成中", self.position + 1, self.file_uris.len()),
            );
            notices.push(last);
            assert(notices.deep_view() == before.push(last.deep_view()));
            Step {
                notices,
                command: Command::Generate { file_uri: self.file_uris[self.position].clone() },
            }
        } else {
            self.integrate_or_conclude(notices)
        }
    }

    fn next_upload(&mut self, notices: Vec<ProgressUpdate>) -> (step: Step)
        requires
            counts_fit(old(self).deep_view()),
            old(self).position <= old(self).split_files.len(),
            old(self).current_step == old(self).files.len() + old(self).split_files.len() + old(
                self,
            ).position,
            old(self).processed_files.len() == old(self).split_files.len(),
            old(self).file_uris.len() == old(self).position,
            old(self).documents.len() == 0,
        ensures
            (final(self).deep_view(), step.deep_view()) == next_upload(
                old(self).deep_view(),
                notices.deep_view(),
            ),
            final(self).wf(),
    {
        if self.position < self.processed_files.len() {
            let mut notices = notices;
            let ghost before = notices.deep_view();
            self.stage = Stage::Uploading;
            self.current_step = self.current_step + 1;
            let path = self.processed_files[self.position].clone();
            let mut message = counted(
                "ファイルアップロード中",
                self.position + 1,
                self.processed_files.len(),
            );
            message.append(": ");
            message.append(shown(path.as_str()).as_str());
            let last = self.notice(message);
            notices.push(last);
            assert(notices.deep_view() == before.push(last.deep_view()));
            Step { notices, command: Command::Upload { path } }
        } else {
            self.stage = Stage::Generating;
            self.position = 0;
            self.next_generation(notices)
        }
    }

    fn next_encoding(&mut self, notices: Vec<ProgressUpdate>) -> (step: Step)
        requires
            counts_fit(old(self).deep_view()),
            old(self).position <= old(self).split_files.len(),
            old(self).current_step == old(self).files.len() + old(self).position,
            old(self).processed_files.len() == old(self).position,
            old(self).file_uris.len() == 0,
            old(self).documents.len() == 0,
        ensures
            (final(self).deep_view(), step.deep_view()) == next_encoding(
                old(self).deep_view(),
                notices.deep_view(),
            ),
            final(self).wf(),
    {
        if self.position < self.split_files.len() {
            let mut notices = notices;
            let ghost before = notices.deep_view();
            self.stage = Stage::Encoding;
            self.current_step = self.current_step + 1;
            let path = self.split_files[self.position].clone();
            let mut message = counted("動画品質処理中", self.position + 1, self.split_files.len());
            message.append(": ");
            message.append(shown(path.as_str()).as_str());
            let last = self.notice(message);
            notices.push(last);
            assert(notices.deep_view() == before.push(last.deep_view()));
            Step { notices, command: Command::Encode { path } }
        } else {
            self.stage = Stage::Uploading;
            self.position = 0;
            self.next_upload(notices)
        }
    }

    fn next_split(&mut self, notices: Vec<ProgressUpdate>) -> (step: Step)
        requires
            counts_fit(old(self).deep_view()),
            old(self).position <= old(self).files.len(),
            old(self).current_step == old(self).position,
            old(self).processed_files.len() == 0,
            old(self).file_uris.len() == 0,
            old(self).documents.len() == 0,
        ensures
            (final(self).deep_view(), step.deep_view()) == next_split(
                old(self).deep_view(),
                notices.deep_view(),
            ),
            final(self).wf(),
    {
        if self.position < self.files.len() {
            let mut notices = notices;
            let ghost before = notices.deep_view();
            self.stage = Stage::Splitting;
            self.current_step = self.current_step + 1;
            let mut message = counted("ファイル分割処理中", self.position + 1, self.files.len());
            message.append(": ");
            message.append(self.files[self.position].name.as_str());
            let last = self.notice(message);
            notices.push(last);
            assert(notices.deep_view() == before.push(last.deep_view()));
            Step {
                notices,
                command: Command::Split { path: self.files[self.position].path.clone() },
            }
        } else {
            self.stage = Stage::Encoding;
            self.position = 0;
            self.next_encoding(notices)
        }
    }

    /// Begins a run over `files` and gives its first step.
    pub fn start(files: Vec<VideoFile>, embed_images: bool) -> (r: (Pipeline, Step))
        requires
            files.len() * 4 + 1 <= usize::MAX,
        ensures
            (r.0.deep_view(), r.1.deep_view()) == started(files.deep_view(), embed_images),
            r.0.wf(),
    {
        let count = files.len();
        let total_steps = count * 4 + if count > 1 {
            1
        } else {
            0
        };
        let mut pipeline = Pipeline {
            stage: Stage::Splitting,
            position: 0,
            current_step: 0,
            total_steps,
            embed_images,
            files,
            split_files: Vec::new(),
            processed_files: Vec::new(),
            file_uris: Vec::new(),
            documents: Vec::new(),
            document: String::new(),
        };
        assert(pipeline.deep_view() == initial(files.deep_view(), embed_images)) by {
            assert(pipeline.split_files.deep_view() =~= Seq::empty());
            assert(pipeline.processed_files.deep_view() =~= Seq::empty());
            assert(pipeline.file_uris.deep_view() =~= Seq::empty());
            assert(pipeline.documents.deep_view() =~= Seq::empty());
        }
        let first = pipeline.notice(String::from_str("ドキュメント生成を開始しています..."));
        let mut notices: Vec<ProgressUpdate> = Vec::new();
        notices.push(first);
        assert(notices.deep_view() == seq![first.deep_view()]);
        let step = pipeline.next_split(notices);
        (pipeline, step)
    }

    /// Whether `outcome` can be handed to `advance` now.
    pub fn accepts(&self, outcome: &Outcome) -> (r: bool)
        requires
            self.wf(),
        ensures
            r == accepts(self.deep_view(), outcome.deep_view()),
    {
        match self.stage {
            Stage::Splitting => match outcome {
                Outcome::Failed(_) => true,
                Outcome::Segments(segments) => {
                    let kept: usize = if segments.len() > 1 {
                        segments.len()
                    } else {
                        1
                    };
                    let room: usize = (usize::MAX - 1 - self.files.len()) / 3;
                    self.split_files.len() <= room && kept <= room - self.split_files.len()
                },
                Outcome::Text(_) => false,
            },
            Stage::Encoding
            | Stage::Uploading
            | Stage::Generating
            | Stage::Integrating
            | Stage::EmbeddingImages => match outcome {
                Outcome::Segments(_) => false,
                _ => true,
            },
            Stage::Finished | Stage::Failed => false,
        }
    }

    /// Takes the outcome of the command of the last step and gives the next
    /// step.
    pub fn advance(&mut self, outcome: Outcome) -> (step: Step)
        requires
            old(self).wf(),
            accepts(old(self).deep_view(), outcome.deep_view()),
        ensures
            (final(self).deep_view(), step.deep_view()) == advanced(
                old(self).deep_view(),
                outcome.deep_view(),
            ),
            final(self).wf(),
    {
        let notices: Vec<ProgressUpdate> = Vec::new();
        assert(notices.deep_view() == Seq::<ProgressModel>::empty());
        match self.stage {
            Stage::Splitting => match outcome {
                Outcome::Failed(reason) => {
                    let mut message = String::from_str("Failed to process file ");
                    message.append(self.files[self.position].name.as_str());
                    message.append(": ");
                    message.append(reason.as_str());
                    self.fail(message)
                },
                Outcome::Segments(segments) => {
                    let ghost before = self.split_files.deep_view();
                    if segments.len() > 1 {
                        let mut segments = segments;
                        let ghost added = segments.deep_view();
                        self.split_files.append(&mut segments);
                        assert(self.split_files.deep_view() == before + added);
                    } else {
                        let path = self.files[self.position].path.clone();
                        self.split_files.push(path);
                        assert(self.split_files.deep_view() == before + seq![path@]);
                    }
                    self.position = self.position + 1;
                    self.next_split(notices)
                },
                Outcome::Text(_) => unreached(),
            },
            Stage::Encoding => match outcome {
                Outcome::Failed(reason) => {
                    let mut message = String::from_str("Failed to encode video ");
                    message.append(self.split_files[self.position].as_str());
                    message.append(": ");
                    message.append(reason.as_str());
                    self.fail(message)
                },
                Outcome::Text(path) => {
                    let ghost before = self.processed_files.deep_view();
                    self.processed_files.push(path);
                    assert(self.processed_files.deep_view() == before.push(path@));
                    self.position = self.position + 1;
                    self.next_encoding(notices)
                },
                Outcome::Segments(_) => unreached(),
            },
            Stage::Uploading => match outcome {
                Outcome::Failed(reason) => {
                    let mut message = String::from_str("Failed to upload file ");
                    message.append(self.processed_files[self.position].as_str());
                    message.append(": ");
                    message.append(reason.as_str());
                    self.fail(message)
                },
                Outcome::Text(uri) => {
                    let ghost before = self.file_uris.deep_view();
                    self.file_uris.push(uri);
                    assert(self.file_uris.deep_view() == before.push(uri@));
                    self.position = self.position + 1;
                    self.next_upload(notices)
                },
                Outcome::Segments(_) => unreached(),
            },
            Stage::Generating => match outcome {
                Outcome::Failed(reason) => {
                    let mut message = String::from_str("Failed to generate document for file: ");
                    message.append(reason.as_str());
                    self.fail(message)
                },
                Outcome::Text(document) => {
                    let ghost before = self.documents.deep_view();
                    self.documents.push(document);
                    assert(self.documents.deep_view() == before.push(document@));
                    self.position = self.position + 1;
                    self.next_generation(notices)
                },
                Outcome::Segments(_) => unreached(),
            },
            Stage::Integrating => match outcome {
                Outcome::Failed(reason) => {
                    let mut message = String::from_str("Failed to integrate documents: ");
                    message.append(reason.as_str());
                    self.fail(message)
                },
                Outcome::Text(document) => {
                    self.document = document;
                    self.embed_or_finish(notices)
                },
                Outcome::Segments(_) => unreached(),
            },
            Stage::EmbeddingImages => match outcome {
                Outcome::Failed(_) => self.finish(notices),
                Outcome::Text(document) => {
                    self.document = document;
                    self.finish(notices)
                },
                Outcome::Segments(_) => unreached(),
            },
            Stage::Finished | Stage::Failed => unreached(),
        }
    }
}

/// The name shown for the file at `path`: its file name, or a stand-in where
/// it has none.
pub fn shown(path: &str) -> (r: String)
    ensures
        r@ == shown_name(path@),
{
    name_or_unknown(file_name(path))
}

/// The name shown for a file whose file name is `name`.
pub fn name_or_unknown(name: Option<String>) -> (r: String)
    ensures
        r@ == match name {
            Some(n) => n@,
            None => "不明なファイル"@,
        },
{
    match name {
        Some(n) => n,
        None => String::from_str("不明なファイル"),
    }
}

/// A run in which no video was cut takes as many steps as were expected:
/// where it merges documents, the merge is the last step announced.
pub proof fn lemma_uncut_run_meets_expectation(m: PipelineModel)
    requires
        well_formed(m),
        m.split_files.len() == m.files.len(),
    ensures
        m.stage == Stage::Integrating ==> m.current_step == m.total_steps,
        m.stage == Stage::Generating && m.files.len() == 1 ==> m.current_step == m.total_steps,
        m.stage == Stage::Splitting || m.stage == Stage::Encoding || m.stage == Stage::Uploading
            || m.stage == Stage::Generating ==> m.current_step <= m.total_steps,
{
}

/// A run announces a step more than were expected only after a video was
/// cut: in every state that waits for an outcome, the steps announced are at
/// most one for each picked file, three for each file after the cut, and one
/// for the merge.
pub proof fn lemma_steps_are_bounded(m: PipelineModel)
    requires
        well_formed(m),
        m.stage != Stage::EmbeddingImages,
        m.stage != Stage::Finished,
        m.stage != Stage::Failed,
    ensures
        1 <= m.current_step <= m.files.len() + 3 * m.split_files.len() + 1,
{
}

} // verus!
