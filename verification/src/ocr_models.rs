//! Provisioning of the recognition models: which files are fetched, and how
//! one download runs from its first byte to its end.

use vstd::prelude::*;
use crate::errors::TranscendiaError;

verus! {

/// The directory, below the per-user configuration directory, that holds
/// the model files.
pub const MODEL_FOLDER_NAME: &'static str = "ocr_models";

pub const DETECTION_MODEL_NAME: &'static str = "text-detection.mnn";

pub const RECOGNITION_MODEL_NAME: &'static str = "text-recognition.mnn";

pub const OCR_KEYS_NAME: &'static str = "ocr_keys.txt";

/// One file that recognition needs: where it is kept and where it comes
/// from.
#[derive(Clone, Copy, Debug, PartialEq, Eq)]
pub struct ModelDescriptor {
    pub local_filename: &'static str,
    pub remote_url: &'static str,
}

/// The detector.
pub open spec fn detection_model() -> ModelDescriptor {
    ModelDescriptor {
        local_filename: "text-detection.mnn",
        remote_url: "https://github.com/zibo-chen/rust-paddle-ocr/raw/refs/heads/main/models/PP-OCRv5_mobile_det_fp16.mnn",
    }
}

/// The recognizer.
pub open spec fn recognition_model() -> ModelDescriptor {
    ModelDescriptor {
        local_filename: "text-recognition.mnn",
        remote_url: "https://github.com/zibo-chen/rust-paddle-ocr/raw/refs/heads/main/models/PP-OCRv5_mobile_rec_fp16.mnn",
    }
}

/// The key table of the recognizer.
pub open spec fn keys_model() -> ModelDescriptor {
    ModelDescriptor {
        local_filename: "ocr_keys.txt",
        remote_url: "https://github.com/zibo-chen/rust-paddle-ocr/raw/refs/heads/main/models/ppocr_keys_v5.txt",
    }
}

/// The files that must be present before the runtime may start.
pub open spec fn required_models() -> Seq<ModelDescriptor> {
    seq![detection_model(), recognition_model(), keys_model()]
}

/// The models that are not present, in the order of the list. A model
/// without an entry in `present` counts as absent.
pub open spec fn missing(models: Seq<ModelDescriptor>, present: Seq<bool>) -> Seq<
    ModelDescriptor,
>
    decreases models.len(),
{
    if models.len() == 0 {
        Seq::empty()
    } else {
        let before = missing(models.drop_last(), present);
        let last = models.len() - 1;
        if last < present.len() && present[last] {
            before
        } else {
            before.push(models.last())
        }
    }
}

/// What provisioning has to do.
#[derive(Debug)]
pub struct ProvisionPlan {
    /// True when nothing is missing: the runtime may start.
    pub ready: bool,
    /// One download per missing file.
    pub downloads: Vec<ModelDescriptor>,
    /// Whether the blocking download view is shown.
    pub show_download_view: bool,
}

/// The list of required models.
pub fn model_list() -> (models: Vec<ModelDescriptor>)
    ensures
        models@ == required_models(),
{
    let mut models: Vec<ModelDescriptor> = Vec::new();
    models.push(
        ModelDescriptor {
            local_filename: DETECTION_MODEL_NAME,
            remote_url: "https://github.com/zibo-chen/rust-paddle-ocr/raw/refs/heads/main/models/PP-OCRv5_mobile_det_fp16.mnn",
        },
    );
    models.push(
        ModelDescriptor {
            local_filename: RECOGNITION_MODEL_NAME,
            remote_url: "https://github.com/zibo-chen/rust-paddle-ocr/raw/refs/heads/main/models/PP-OCRv5_mobile_rec_fp16.mnn",
        },
    );
    models.push(
        ModelDescriptor {
            local_filename: OCR_KEYS_NAME,
            remote_url: "https://github.com/zibo-chen/rust-paddle-ocr/raw/refs/heads/main/models/ppocr_keys_v5.txt",
        },
    );
    assert(models@ =~= required_models());
    models
}

/// Plans the provisioning of `models`, given for each whether its file is
/// there: one download for each missing file, the download view exactly
/// when something is missing.
pub fn plan_provisioning(models: &Vec<ModelDescriptor>, present: &Vec<bool>) -> (plan:
    ProvisionPlan)
    ensures
        plan.downloads@ == missing(models@, present@),
        plan.ready == (missing(models@, present@).len() == 0),
        plan.show_download_view == !plan.ready,
{
    let mut downloads: Vec<ModelDescriptor> = Vec::new();
    let mut i: usize = 0;
    while i < models.len()
        invariant
            i <= models.len(),
            downloads@ == missing(models@.take(i as int), present@),
        decreases models.len() - i,
    {
        proof {
            assert(models@.take(i + 1).drop_last() == models@.take(i as int));
            assert(models@.take(i + 1).last() == models@[i as int]);
        }
        if !(i < present.len() && present[i]) {
            downloads.push(models[i]);
        }
        i += 1;
    }
    proof {
        assert(models@.take(models@.len() as int) == models@);
    }
    let ready = downloads.len() == 0;
    ProvisionPlan { ready, downloads, show_download_view: !ready }
}

/// The provisioner of the recognition models.
#[derive(Debug)]
pub struct TranscendiaOcr {}

impl TranscendiaOcr {
    /// Plans the provisioning of the required models, given which of the
    /// three files are there. The plan is ready exactly when all three are.
    pub fn check(detection: bool, recognition: bool, keys: bool) -> (plan: ProvisionPlan)
        ensures
            plan.downloads@ == missing(required_models(), seq![detection, recognition, keys]),
            plan.ready == (detection && recognition && keys),
            plan.ready == (plan.downloads@.len() == 0),
            plan.show_download_view == !plan.ready,
    {
        let models = model_list();
        let mut present: Vec<bool> = Vec::new();
        present.push(detection);
        present.push(recognition);
        present.push(keys);
        proof {
            assert(present@ =~= seq![detection, recognition, keys]);
            all_present_iff_nothing_missing(models@, present@);
            if detection && recognition && keys {
                assert forall|i: int| 0 <= i < models@.len() implies !#[trigger] is_absent_at(
                    models@,
                    present@,
                    i,
                ) by {}
            } else {
                assert(is_absent_at(models@, present@, 0) || is_absent_at(models@, present@, 1)
                    || is_absent_at(models@, present@, 2));
            }
        }
        plan_provisioning(&models, &present)
    }
}

/// Whether nothing is missing, so that the runtime may start: true exactly
/// when all three files are there.
pub fn check_for_models(detection: bool, recognition: bool, keys: bool) -> (ready: bool)
    ensures
        ready == (detection && recognition && keys),
        ready == (missing(required_models(), seq![detection, recognition, keys]).len() == 0),
{
    TranscendiaOcr::check(detection, recognition, keys).ready
}

/// How far a download has come; the payload of a progress notification.
#[derive(Clone, Copy, Debug, PartialEq, Eq)]
pub struct DownloadData {
    /// The address the file comes from.
    pub file: &'static str,
    /// Bytes written so far.
    pub progress: u64,
    pub total_size: u64,
}

/// Where a download stands.
#[derive(Clone, Copy, Debug, PartialEq, Eq, Structural)]
pub enum DownloadStatus {
    /// Chunks are still expected.
    Active,
    /// The stream ended: the file is complete.
    Complete,
    /// The stream broke off.
    Failed,
    /// The user called the download off.
    Cancelled,
}

/// One download of one missing model.
#[derive(Clone, Copy, Debug, PartialEq, Eq)]
pub struct DownloadJob {
    pub model: ModelDescriptor,
    pub bytes_written: u64,
    pub total_size: u64,
    pub status: DownloadStatus,
}

/// How the server answered the request for a model.
#[derive(Clone, Copy, Debug, PartialEq, Eq)]
pub enum DownloadResponse {
    /// The request failed.
    Unreachable,
    /// The server streams the file and has announced this size, if any.
    Streaming(Option<u64>),
}

/// What happened to a running download.
#[derive(Clone, Copy, Debug, PartialEq, Eq)]
pub enum DownloadEvent {
    /// A chunk of this many bytes arrived.
    Chunk(u64),
    /// The stream reported an error.
    StreamError,
    /// The stream ended.
    StreamEnd,
    /// The cancellation signal fired.
    Cancelled,
}

/// What the caller does in answer to an event.
#[derive(Clone, Copy, Debug, PartialEq, Eq)]
pub enum DownloadAction {
    /// Write the chunk to the file, then send the progress notification.
    WriteAndReport(DownloadData),
    /// Mark the model as satisfied.
    MarkSatisfied,
    /// Remove the partial file of this name; the download has failed and is
    /// not tried again.
    RemovePartial(&'static str),
    /// Remove the partial file of this name and end the process: the user
    /// declined provisioning as a whole.
    RemovePartialAndQuit(&'static str),
    /// The download is over; the event needs no answer.
    Nothing,
}

/// The bytes written after a chunk of `len` bytes, never more than the
/// announced size.
pub open spec fn progress_after(written: u64, total: u64, len: u64) -> u64 {
    if written + len >= total {
        total
    } else {
        (written + len) as u64
    }
}

impl DownloadJob {
    /// The job after an event.
    pub open spec fn after(self, event: DownloadEvent) -> DownloadJob {
        if self.status != DownloadStatus::Active {
            self
        } else {
            match event {
                DownloadEvent::Chunk(len) => DownloadJob {
                    bytes_written: progress_after(self.bytes_written, self.total_size, len),
                    ..self
                },
                DownloadEvent::StreamError => DownloadJob { status: DownloadStatus::Failed, ..self },
                DownloadEvent::StreamEnd => DownloadJob { status: DownloadStatus::Complete, ..self },
                DownloadEvent::Cancelled => DownloadJob {
                    status: DownloadStatus::Cancelled,
                    ..self
                },
            }
        }
    }

    /// The answer to an event.
    pub open spec fn answer(self, event: DownloadEvent) -> DownloadAction {
        if self.status != DownloadStatus::Active {
            DownloadAction::Nothing
        } else {
            match event {
                DownloadEvent::Chunk(len) => DownloadAction::WriteAndReport(
                    DownloadData {
                        file: self.model.remote_url,
                        progress: progress_after(self.bytes_written, self.total_size, len),
                        total_size: self.total_size,
                    },
                ),
                DownloadEvent::StreamError => DownloadAction::RemovePartial(
                    self.model.local_filename,
                ),
                DownloadEvent::StreamEnd => DownloadAction::MarkSatisfied,
                DownloadEvent::Cancelled => DownloadAction::RemovePartialAndQuit(
                    self.model.local_filename,
                ),
            }
        }
    }

    /// Takes an event of the download and says what the caller does next.
    pub fn on_event(&mut self, event: DownloadEvent) -> (action: DownloadAction)
        ensures
            *final(self) == old(self).after(event),
            action == old(self).answer(event),
    {
        match self.status {
            DownloadStatus::Active => {},
            _ => {
                return DownloadAction::Nothing;
            },
        }
        match event {
            DownloadEvent::Chunk(len) => {
                let progress: u64 = if self.bytes_written >= self.total_size || len
                    >= self.total_size - self.bytes_written {
                    self.total_size
                } else {
                    self.bytes_written + len
                };
                self.bytes_written = progress;
                DownloadAction::WriteAndReport(
                    DownloadData {
                        file: self.model.remote_url,
                        progress,
                        total_size: self.total_size,
                    },
                )
            },
            DownloadEvent::StreamError => {
                self.status = DownloadStatus::Failed;
                DownloadAction::RemovePartial(self.model.local_filename)
            },
            DownloadEvent::StreamEnd => {
                self.status = DownloadStatus::Complete;
                DownloadAction::MarkSatisfied
            },
            DownloadEvent::Cancelled => {
                self.status = DownloadStatus::Cancelled;
                DownloadAction::RemovePartialAndQuit(self.model.local_filename)
            },
        }
    }
}

/// Opens the download of a model from the answer of the server.
///
/// Fails with `DownloadFailed` where the request failed and with
/// `ContentLengthUnknown` where the server announced no size; otherwise the
/// job starts with nothing written.
pub fn download_model(model: ModelDescriptor, response: DownloadResponse) -> (r: Result<
    DownloadJob,
    TranscendiaError,
>)
    ensures
        r == match response {
            DownloadResponse::Unreachable => Err::<DownloadJob, TranscendiaError>(
                TranscendiaError::DownloadFailed,
            ),
            DownloadResponse::Streaming(None) => Err::<DownloadJob, TranscendiaError>(
                TranscendiaError::ContentLengthUnknown,
            ),
            DownloadResponse::Streaming(Some(total_size)) => Ok::<DownloadJob, TranscendiaError>(
                (DownloadJob {
                    model,
                    bytes_written: 0,
                    total_size,
                    status: DownloadStatus::Active,
                }),
            ),
        },
{
    match response {
        DownloadResponse::Unreachable => Err(TranscendiaError::DownloadFailed),
        DownloadResponse::Streaming(None) => Err(TranscendiaError::ContentLengthUnknown),
        DownloadResponse::Streaming(Some(total_size)) => Ok(
            DownloadJob { model, bytes_written: 0, total_size, status: DownloadStatus::Active },
        ),
    }
}

/// The progress of a download never runs backwards and never passes the
/// announced size.
pub proof fn progress_is_monotone(job: DownloadJob, event: DownloadEvent)
    requires
        job.bytes_written <= job.total_size,
    ensures
        job.bytes_written <= job.after(event).bytes_written <= job.total_size,
        job.after(event).total_size == job.total_size,
        job.after(event).model == job.model,
{
}

/// A download that is over stays as it is and asks for nothing more: a
/// second cancellation removes no file and ends nothing.
pub proof fn finished_job_is_inert(job: DownloadJob, first: DownloadEvent, second: DownloadEvent)
    requires
        !(first is Chunk),
    ensures
        job.after(first).status != DownloadStatus::Active,
        job.after(first).after(second) == job.after(first),
        job.after(first).answer(second) == DownloadAction::Nothing,
{
}

/// Whether an address asks for an encrypted connection.
pub open spec fn is_https(url: Seq<char>) -> bool {
    url.len() >= 8 && url.subrange(0, 8) == "https://"@
}

/// Every required model comes over an encrypted connection.
pub proof fn required_models_are_https()
    ensures
        forall|i: int|
            0 <= i < required_models().len() ==> is_https(
                #[trigger] required_models()[i].remote_url@,
            ),
{
    reveal_strlit("https://");
    reveal_strlit(
        "https://github.com/zibo-chen/rust-paddle-ocr/raw/refs/heads/main/models/PP-OCRv5_mobile_det_fp16.mnn",
    );
    reveal_strlit(
        "https://github.com/zibo-chen/rust-paddle-ocr/raw/refs/heads/main/models/PP-OCRv5_mobile_rec_fp16.mnn",
    );
    reveal_strlit(
        "https://github.com/zibo-chen/rust-paddle-ocr/raw/refs/heads/main/models/ppocr_keys_v5.txt",
    );
    assert(is_https(detection_model().remote_url@)) by {
        assert(detection_model().remote_url@.subrange(0, 8) =~= "https://"@);
    }
    assert(is_https(recognition_model().remote_url@)) by {
        assert(recognition_model().remote_url@.subrange(0, 8) =~= "https://"@);
    }
    assert(is_https(keys_model().remote_url@)) by {
        assert(keys_model().remote_url@.subrange(0, 8) =~= "https://"@);
    }
}

/// No more is downloaded than is listed.
pub proof fn missing_is_bounded(models: Seq<ModelDescriptor>, present: Seq<bool>)
    ensures
        missing(models, present).len() <= models.len(),
    decreases models.len(),
{
    if models.len() > 0 {
        missing_is_bounded(models.drop_last(), present);
    }
}

/// Whether the model at a position of the list is absent.
pub open spec fn is_absent_at(models: Seq<ModelDescriptor>, present: Seq<bool>, i: int) -> bool {
    0 <= i < models.len() && !(i < present.len() && present[i])
}

/// Nothing is missing exactly when no model of the list is absent.
pub proof fn all_present_iff_nothing_missing(models: Seq<ModelDescriptor>, present: Seq<bool>)
    ensures
        missing(models, present).len() == 0 <==> forall|i: int|
            0 <= i < models.len() ==> !#[trigger] is_absent_at(models, present, i),
    decreases models.len(),
{
    if models.len() > 0 {
        let head = models.drop_last();
        all_present_iff_nothing_missing(head, present);
        let last = models.len() - 1;
        if missing(models, present).len() == 0 {
            assert(missing(head, present).len() == 0);
            assert forall|i: int| 0 <= i < models.len() implies !#[trigger] is_absent_at(
                models,
                present,
                i,
            ) by {
                if i < last {
                    assert(!is_absent_at(head, present, i));
                }
            }
        }
        if forall|i: int| 0 <= i < models.len() ==> !#[trigger] is_absent_at(models, present, i) {
            assert forall|i: int| 0 <= i < head.len() implies !#[trigger] is_absent_at(
                head,
                present,
                i,
            ) by {
                assert(!is_absent_at(models, present, i));
            }
            assert(!is_absent_at(models, present, last));
        }
    }
}

/// The missing models are exactly the models of the list that are absent.
pub proof fn missing_are_the_absent(models: Seq<ModelDescriptor>, present: Seq<bool>)
    ensures
        forall|m: ModelDescriptor|
            missing(models, present).contains(m) <==> exists|i: int|
                #[trigger] is_absent_at(models, present, i) && models[i] == m,
    decreases models.len(),
{
    if models.len() > 0 {
        let head = models.drop_last();
        let last = models.len() - 1;
        missing_are_the_absent(head, present);
        let before = missing(head, present);
        let all = missing(models, present);
        assert forall|m: ModelDescriptor|
            all.contains(m) <==> exists|i: int|
                #[trigger] is_absent_at(models, present, i) && models[i] == m by {
            if all.contains(m) {
                let k = choose|k: int| 0 <= k < all.len() && all[k] == m;
                if k < before.len() {
                    assert(before[k] == m);
                    assert(before.contains(m));
                    let i = choose|i: int| #[trigger]
                        is_absent_at(head, present, i) && head[i] == m;
                    assert(is_absent_at(models, present, i) && models[i] == m);
                } else {
                    assert(is_absent_at(models, present, last) && models[last] == m);
                }
            }
            if exists|i: int| #[trigger] is_absent_at(models, present, i) && models[i] == m {
                let i = choose|i: int| #[trigger]
                    is_absent_at(models, present, i) && models[i] == m;
                if i < last {
                    assert(is_absent_at(head, present, i) && head[i] == m);
                    assert(before.contains(m));
                    let k = choose|k: int| 0 <= k < before.len() && before[k] == m;
                    assert(all[k] == m);
                } else {
                    assert(all[before.len() as int] == m);
                }
            }
        }
    } else {
        assert forall|m: ModelDescriptor|
            missing(models, present).contains(m) <==> exists|i: int|
                #[trigger] is_absent_at(models, present, i) && models[i] == m by {
        }
    }
}

} // verus!
