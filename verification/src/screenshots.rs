//! Screenshot references in a generated document, and their replacement by
//! frames of the videos.
//!
//! The model marks a moment of a video as `[Screenshot: 01:23s]`. Each mark is
//! found, a frame is asked of the videos that can hold the moment, and the
//! mark becomes a link to the image, or is removed where no video gave one.
//! Taking the frame is the caller's work.

use crate::float_bits::FloatBits;
use crate::paths::{join_path, joined_path};
use crate::text::{decimal, decimal_text, replace_all, replaced};
use vstd::prelude::*;

verus! {

/// The pattern of a screenshot reference; its one group is the moment.
pub const REFERENCE_PATTERN: &'static str =
    r"\[Screenshot:\s*(\d{1,2}:\d{2}(?:\.\d+)?|\d+(?:\.\d+)?)\s*s\]";

/// What the regex crate finds of `pattern` in `text`: for each match from
/// the left, none overlapping another, the matched text and the text of the
/// first group where that group took part; nothing where `pattern` is no
/// pattern.
pub uninterp spec fn regex_captures(pattern: Seq<char>, text: Seq<char>) -> Option<
    Seq<(Seq<char>, Option<Seq<char>>)>,
>;

/// Compiles `pattern` with `Regex::new` of the regex crate and walks
/// `Regex::captures_iter` over `text`, keeping of each match its text and the
/// text of its first group. Not proved: that the result is the named one.
#[verifier::external_body]
pub(crate) fn captures(pattern: &str, text: &str) -> (r: Option<Vec<(String, Option<String>)>>)
    ensures
        r.deep_view() == regex_captures(pattern@, text@),
{
    match regex::Regex::new(pattern) {
        Ok(re) => Some(
            re.captures_iter(text).map(
                |c| (c[0].to_string(), c.get(1).map(|m| m.as_str().to_string())),
            ).collect(),
        ),
        Err(_) => None,
    }
}

/// A screenshot reference as it stands in the document.
#[derive(Debug, Clone)]
pub struct Mark {
    /// The whole reference, brackets included.
    pub placeholder: String,
    /// The moment as the reference writes it.
    pub moment: String,
}

/// The model of a `Mark`.
pub ghost struct MarkModel {
    pub placeholder: Seq<char>,
    pub moment: Seq<char>,
}

impl DeepView for Mark {
    type V = MarkModel;

    open spec fn deep_view(&self) -> MarkModel {
        MarkModel { placeholder: self.placeholder@, moment: self.moment@ }
    }
}

/// The mark that one match stands for.
pub open spec fn mark_of(found: (Seq<char>, Option<Seq<char>>)) -> MarkModel {
    MarkModel {
        placeholder: found.0,
        moment: match found.1 {
            Some(moment) => moment,
            None => Seq::empty(),
        },
    }
}

/// The marks that the matches stand for, in order.
pub open spec fn marks_of(found: Option<Seq<(Seq<char>, Option<Seq<char>>)>>) -> Seq<MarkModel> {
    match found {
        Some(all) => Seq::new(all.len(), |i: int| mark_of(all[i])),
        None => Seq::empty(),
    }
}

/// The marks that the matches stand for, in order.
pub fn marks_from(found: Option<Vec<(String, Option<String>)>>) -> (r: Vec<Mark>)
    ensures
        r.deep_view() == marks_of(found.deep_view()),
{
    let mut marks: Vec<Mark> = Vec::new();
    match found {
        None => {
            assert(marks.deep_view() =~= marks_of(found.deep_view()));
        },
        Some(all) => {
            let mut i: usize = 0;
            while i < all.len()
                invariant
                    i <= all.len(),
                    marks.len() == i,
                    forall|j: int|
                        0 <= j < i ==> #[trigger] marks.deep_view()[j] == mark_of(
                            all.deep_view()[j],
                        ),
                decreases all.len() - i,
            {
                let ghost before = marks.deep_view();
                let moment = match &all[i].1 {
                    Some(moment) => moment.clone(),
                    None => String::new(),
                };
                let mark = Mark { placeholder: all[i].0.clone(), moment };
                marks.push(mark);
                assert(marks.deep_view() =~= before.push(mark.deep_view()));
                i += 1;
            }
            assert(marks.deep_view() =~= marks_of(found.deep_view()));
        },
    }
    marks
}

/// The screenshot references of `document`, in order.
pub fn find_marks(document: &str) -> (r: Vec<Mark>)
    ensures
        r.deep_view() == marks_of(regex_captures(REFERENCE_PATTERN@, document@)),
{
    marks_from(captures(REFERENCE_PATTERN, document))
}

/// A screenshot reference with its moment read: the reference as it stands
/// in the document, the moment in seconds, and the moment as a decimal
/// number in text.
#[derive(Debug, Clone)]
pub struct Reference {
    pub placeholder: String,
    pub timestamp: FloatBits,
    pub display: String,
}

/// The model of a `Reference`.
pub ghost struct ReferenceModel {
    pub placeholder: Seq<char>,
    pub timestamp: FloatBits,
    pub display: Seq<char>,
}

impl DeepView for Reference {
    type V = ReferenceModel;

    open spec fn deep_view(&self) -> ReferenceModel {
        ReferenceModel {
            placeholder: self.placeholder@,
            timestamp: self.timestamp,
            display: self.display@,
        }
    }
}

/// Among the first `count` videos, those that last at least until
/// `timestamp`, in order.
pub open spec fn fitting(timestamp: FloatBits, durations: Seq<FloatBits>, count: nat) -> Seq<usize>
    decreases count,
{
    if count == 0 || count > durations.len() {
        Seq::empty()
    } else {
        let before = fitting(timestamp, durations, (count - 1) as nat);
        if timestamp.le(durations[count - 1]) {
            before.push((count - 1) as usize)
        } else {
            before
        }
    }
}

/// The videos that are asked for a frame at `timestamp`, in order: those
/// that last at least that long, or all of them where none does.
pub open spec fn candidates_for(timestamp: FloatBits, durations: Seq<FloatBits>) -> Seq<usize> {
    let fit = fitting(timestamp, durations, durations.len());
    if fit.len() == 0 {
        Seq::new(durations.len(), |i: int| i as usize)
    } else {
        fit
    }
}

/// The videos that are asked for a frame at `timestamp`, in order: those
/// that last at least that long, or all of them where none does.
pub fn frame_candidates(timestamp: &FloatBits, durations: &[FloatBits]) -> (r: Vec<usize>)
    ensures
        r@ == candidates_for(*timestamp, durations@),
        forall|i: int| 0 <= i < r.len() ==> #[trigger] r[i] < durations.len(),
{
    let mut fit: Vec<usize> = Vec::new();
    let mut i: usize = 0;
    while i < durations.len()
        invariant
            i <= durations.len(),
            fit@ == fitting(*timestamp, durations@, i as nat),
            forall|j: int| 0 <= j < fit.len() ==> #[trigger] fit[j] < durations.len(),
        decreases durations.len() - i,
    {
        if timestamp.at_most(&durations[i]) {
            fit.push(i);
        }
        i += 1;
    }
    if fit.len() > 0 {
        return fit;
    }
    let mut all: Vec<usize> = Vec::new();
    let mut k: usize = 0;
    while k < durations.len()
        invariant
            k <= durations.len(),
            all.len() == k,
            forall|j: int| 0 <= j < k ==> #[trigger] all[j] == j,
        decreases durations.len() - k,
    {
        all.push(k);
        k += 1;
    }
    assert(all@ =~= Seq::new(durations@.len(), |i: int| i as usize));
    all
}

/// The file name of the image taken from video number `video_no` at the
/// moment written `display`: a dot in the moment becomes an underscore.
pub open spec fn image_name(video_no: nat, display: Seq<char>) -> Seq<char> {
    "image-"@ + decimal_text(video_no) + "-"@ + replaced(display, "."@, "_"@) + "s.png"@
}

/// The file name of the image taken from video number `video_no` at the
/// moment written `display`.
pub fn image_file_name(video_no: usize, display: &str) -> (r: String)
    ensures
        r@ == image_name(video_no as nat, display@),
{
    let mut name = String::from_str("image-");
    name.append(decimal(video_no as u64).as_str());
    name.append("-");
    name.append(replace_all(display, ".", "_").as_str());
    name.append("s.png");
    name
}

/// The link that takes the place of a reference: image number `counter`,
/// at its place beside the document.
pub open spec fn image_link(counter: nat, file_name: Seq<char>) -> Seq<char> {
    "![Screenshot "@ + decimal_text(counter) + "](./images/"@ + file_name + ")"@
}

/// The link that takes the place of a reference.
pub fn markdown_image(counter: usize, file_name: &str) -> (r: String)
    ensures
        r@ == image_link(counter as nat, file_name@),
{
    let mut link = String::from_str("![Screenshot ");
    link.append(decimal(counter as u64).as_str());
    link.append("](./images/");
    link.append(file_name);
    link.append(")");
    link
}

/// The directory of the images of a document that is saved in
/// `output_directory`.
pub fn images_directory(output_directory: &str) -> (r: String)
    ensures
        r@ == joined_path(output_directory@, "images"@),
{
    join_path(output_directory, "images")
}

/// Where the image named `file_name` is written.
pub fn image_path(output_directory: &str, file_name: &str) -> (r: String)
    ensures
        r@ == joined_path(joined_path(output_directory@, "images"@), file_name@),
{
    let directory = images_directory(output_directory);
    join_path(directory.as_str(), file_name)
}

/// What is due next while images are embedded.
#[derive(Debug, Clone)]
pub enum EmbedAction {
    /// Take a frame of this video, at the moment of the current reference,
    /// and write it under this file name.
    Extract { video_index: usize, timestamp: FloatBits, image_file_name: String },
    /// Every reference is dealt with.
    Done,
}

/// The model of an `EmbedAction`.
pub ghost enum EmbedActionModel {
    Extract { video_index: usize, timestamp: FloatBits, image_file_name: Seq<char> },
    Done,
}

impl DeepView for EmbedAction {
    type V = EmbedActionModel;

    open spec fn deep_view(&self) -> EmbedActionModel {
        match self {
            EmbedAction::Extract { video_index, timestamp, image_file_name } => {
                EmbedActionModel::Extract {
                    video_index: *video_index,
                    timestamp: *timestamp,
                    image_file_name: image_file_name@,
                }
            },
            EmbedAction::Done => EmbedActionModel::Done,
        }
    }
}

/// The state of the embedding of images into one document.
#[derive(Debug, Clone)]
pub struct Embedding {
    /// The document, with the references dealt with so far replaced.
    pub document: String,
    /// The number of the next image.
    pub image_counter: usize,
    /// The references of the document, in order.
    pub references: Vec<Reference>,
    /// The duration of each video, in seconds.
    pub durations: Vec<FloatBits>,
    /// The index of the reference that is dealt with.
    pub reference: usize,
    /// The videos that are asked for the current reference, in order.
    pub candidates: Vec<usize>,
    /// The index, among the candidates, of the video that is asked.
    pub candidate: usize,
}

/// The model of an `Embedding`.
pub ghost struct EmbeddingModel {
    pub document: Seq<char>,
    pub image_counter: nat,
    pub references: Seq<ReferenceModel>,
    pub durations: Seq<FloatBits>,
    pub reference: nat,
    pub candidate: nat,
}

impl DeepView for Embedding {
    type V = EmbeddingModel;

    open spec fn deep_view(&self) -> EmbeddingModel {
        EmbeddingModel {
            document: self.document@,
            image_counter: self.image_counter as nat,
            references: self.references.deep_view(),
            durations: self.durations@,
            reference: self.reference as nat,
            candidate: self.candidate as nat,
        }
    }
}

/// The videos that are asked for the current reference of `m`.
pub open spec fn current_candidates(m: EmbeddingModel) -> Seq<usize> {
    candidates_for(m.references[m.reference as int].timestamp, m.durations)
}

/// Whether `m` waits for a frame: there is a current reference and a video
/// to ask for it.
pub open spec fn awaits_frame(m: EmbeddingModel) -> bool {
    m.reference < m.references.len() && m.candidate < current_candidates(m).len()
}

/// The action that `m` waits for.
pub open spec fn awaited(m: EmbeddingModel) -> EmbedActionModel {
    let reference = m.references[m.reference as int];
    let video_index = current_candidates(m)[m.candidate as int];
    EmbedActionModel::Extract {
        video_index,
        timestamp: reference.timestamp,
        image_file_name: image_name((video_index + 1) as nat, reference.display),
    }
}

/// Moves on from `m` to the next state that waits for a frame, or to the
/// end: a reference for which no video is left to ask is removed from the
/// document.
pub open spec fn settled(m: EmbeddingModel) -> (EmbeddingModel, EmbedActionModel)
    decreases m.references.len() - m.reference,
{
    if m.reference >= m.references.len() {
        (m, EmbedActionModel::Done)
    } else if m.candidate < current_candidates(m).len() {
        (m, awaited(m))
    } else {
        settled(
            EmbeddingModel {
                document: replaced(
                    m.document,
                    m.references[m.reference as int].placeholder,
                    Seq::empty(),
                ),
                reference: m.reference + 1,
                candidate: 0,
                ..m
            },
        )
    }
}

/// The first state and action for `document` with its references.
pub open spec fn embedding_started(
    document: Seq<char>,
    references: Seq<ReferenceModel>,
    durations: Seq<FloatBits>,
) -> (EmbeddingModel, EmbedActionModel) {
    settled(
        EmbeddingModel {
            document,
            image_counter: 1,
            references,
            durations,
            reference: 0,
            candidate: 0,
        },
    )
}

/// The state and action after the frame that `m` waited for was taken, or
/// was not. A frame taken replaces the reference, wherever it stands in the
/// document, by a link to the image; a frame not taken lets the next video
/// be asked.
pub open spec fn embedding_advanced(m: EmbeddingModel, extracted: bool) -> (
    EmbeddingModel,
    EmbedActionModel,
) {
    if extracted {
        let reference = m.references[m.reference as int];
        let video_index = current_candidates(m)[m.candidate as int];
        settled(
            EmbeddingModel {
                document: replaced(
                    m.document,
                    reference.placeholder,
                    image_link(
                        m.image_counter,
                        image_name((video_index + 1) as nat, reference.display),
                    ),
                ),
                image_counter: m.image_counter + 1,
                reference: m.reference + 1,
                candidate: 0,
                ..m
            },
        )
    } else {
        settled(EmbeddingModel { candidate: m.candidate + 1, ..m })
    }
}

impl Embedding {
    /// What holds of an embedding between two steps: the counters are in
    /// range, and the candidates are those of the current reference.
    pub open spec fn wf(&self) -> bool {
        &&& self.reference <= self.references.len() < usize::MAX
        &&& self.image_counter <= self.reference + 1
        &&& self.reference < self.references.len() ==> {
            &&& self.candidates@ == current_candidates(self.deep_view())
            &&& self.candidate <= self.candidates.len()
        }
    }

    /// Whether a frame is waited for.
    pub open spec fn waiting(&self) -> bool {
        awaits_frame(self.deep_view())
    }

    /// Whether a frame is waited for.
    pub fn is_waiting(&self) -> (r: bool)
        requires
            self.wf(),
        ensures
            r == self.waiting(),
    {
        self.reference < self.references.len() && self.candidate < self.candidates.len()
    }

    fn settle(&mut self) -> (action: EmbedAction)
        requires
            old(self).wf(),
        ensures
            final(self).wf(),
            (final(self).deep_view(), action.deep_view()) == settled(old(self).deep_view()),
            action is Extract <==> final(self).waiting(),
    {
        loop
            invariant
                self.wf(),
                settled(self.deep_view()) == settled(old(self).deep_view()),
            decreases self.references.len() - self.reference,
        {
            if self.reference >= self.references.len() {
                return EmbedAction::Done;
            }
            if self.candidate < self.candidates.len() {
                let video_index = self.candidates[self.candidate];
                let reference = &self.references[self.reference];
                assert(video_index < self.durations.len()) by {
                    assert(self.durations@.len() == self.durations.len());
                    lemma_candidates_in_range(reference.timestamp, self.durations@);
                }
                return EmbedAction::Extract {
                    video_index,
                    timestamp: reference.timestamp,
                    image_file_name: image_file_name(video_index + 1, reference.display.as_str()),
                };
            }
            let ghost before = self.deep_view();
            let ghost snapshot = *self;
            self.document = replace_all(
                self.document.as_str(),
                self.references[self.reference].placeholder.as_str(),
                "",
            );
            self.reference = self.reference + 1;
            self.candidate = 0;
            if self.reference < self.references.len() {
                self.candidates = frame_candidates(
                    &self.references[self.reference].timestamp,
                    self.durations.as_slice(),
                );
            }
            proof {
                reveal_strlit("");
                assert(""@ =~= Seq::<char>::empty());
                assert(before.references[before.reference as int].placeholder
                    == snapshot.references@[before.reference as int].placeholder@);
                assert(self.references == snapshot.references);
                assert(self.durations == snapshot.durations);
            }
            assert(self.deep_view() == (EmbeddingModel {
                document: replaced(
                    before.document,
                    before.references[before.reference as int].placeholder,
                    Seq::empty(),
                ),
                reference: before.reference + 1,
                candidate: 0,
                ..before
            }));
            assert(settled(before) == settled(self.deep_view()));
        }
    }

    /// Begins the embedding of images into `document`, whose references are
    /// `references`, from videos of the given durations.
    pub fn start(document: String, references: Vec<Reference>, durations: Vec<FloatBits>) -> (r: (
        Embedding,
        EmbedAction,
    ))
        requires
            references.len() < usize::MAX,
        ensures
            r.0.wf(),
            (r.0.deep_view(), r.1.deep_view()) == embedding_started(
                document@,
                references.deep_view(),
                durations@,
            ),
            r.1 is Extract <==> r.0.waiting(),
    {
        let candidates = if references.len() > 0 {
            frame_candidates(&references[0].timestamp, durations.as_slice())
        } else {
            Vec::new()
        };
        let mut embedding = Embedding {
            document,
            image_counter: 1,
            references,
            durations,
            reference: 0,
            candidates,
            candidate: 0,
        };
        let action = embedding.settle();
        (embedding, action)
    }

    /// Takes note of whether the frame asked for was taken, and gives what
    /// is due next.
    pub fn advance(&mut self, extracted: bool) -> (action: EmbedAction)
        requires
            old(self).wf(),
            old(self).waiting(),
        ensures
            final(self).wf(),
            (final(self).deep_view(), action.deep_view()) == embedding_advanced(
                old(self).deep_view(),
                extracted,
            ),
            action is Extract <==> final(self).waiting(),
    {
        if extracted {
            let video_index = self.candidates[self.candidate];
            assert(video_index < self.durations.len()) by {
                assert(self.durations@.len() == self.durations.len());
                lemma_candidates_in_range(
                    self.references[self.reference as int].timestamp,
                    self.durations@,
                );
            }
            let name = image_file_name(
                video_index + 1,
                self.references[self.reference].display.as_str(),
            );
            let link = markdown_image(self.image_counter, name.as_str());
            self.document = replace_all(
                self.document.as_str(),
                self.references[self.reference].placeholder.as_str(),
                link.as_str(),
            );
            self.image_counter = self.image_counter + 1;
            self.reference = self.reference + 1;
            self.candidate = 0;
            if self.reference < self.references.len() {
                self.candidates = frame_candidates(
                    &self.references[self.reference].timestamp,
                    self.durations.as_slice(),
                );
            }
        } else {
            self.candidate = self.candidate + 1;
        }
        self.settle()
    }
}

/// Every candidate is one of the videos.
pub proof fn lemma_candidates_in_range(timestamp: FloatBits, durations: Seq<FloatBits>)
    requires
        durations.len() <= usize::MAX,
    ensures
        forall|i: int|
            0 <= i < candidates_for(timestamp, durations).len() ==> #[trigger] candidates_for(
                timestamp,
                durations,
            )[i] < durations.len(),
{
    lemma_fitting_in_range(timestamp, durations, durations.len());
}

/// Every video that fits is one of the first `count`, and lasts at least
/// until `timestamp`.
pub proof fn lemma_fitting_in_range(timestamp: FloatBits, durations: Seq<FloatBits>, count: nat)
    requires
        count <= durations.len() <= usize::MAX,
    ensures
        forall|i: int|
            0 <= i < fitting(timestamp, durations, count).len() ==> {
                &&& #[trigger] fitting(timestamp, durations, count)[i] < count
                &&& timestamp.le(durations[fitting(timestamp, durations, count)[i] as int])
            },
    decreases count,
{
    if count > 0 {
        lemma_fitting_in_range(timestamp, durations, (count - 1) as nat);
        let before = fitting(timestamp, durations, (count - 1) as nat);
        let now = fitting(timestamp, durations, count);
        assert forall|i: int| 0 <= i < now.len() implies #[trigger] now[i] < count && timestamp.le(
            durations[now[i] as int],
        ) by {
            if i < before.len() {
                assert(now[i] == before[i]);
            }
        }
    }
}

} // verus!
