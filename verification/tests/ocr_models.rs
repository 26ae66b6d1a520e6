use transcendia::errors::TranscendiaError;
use transcendia::ocr_models::{
    check_for_models, download_model, model_list, plan_provisioning, DownloadAction,
    DownloadData, DownloadEvent, DownloadJob, DownloadResponse, DownloadStatus, TranscendiaOcr,
    DETECTION_MODEL_NAME, MODEL_FOLDER_NAME, OCR_KEYS_NAME, RECOGNITION_MODEL_NAME,
};

#[test]
fn model_list_names_three_files() {
    let models = model_list();
    assert_eq!(models.len(), 3);
    assert_eq!(models[0].local_filename, DETECTION_MODEL_NAME);
    assert_eq!(models[1].local_filename, RECOGNITION_MODEL_NAME);
    assert_eq!(models[2].local_filename, OCR_KEYS_NAME);
    for m in &models {
        assert!(m.remote_url.starts_with("https://"));
    }
    assert_eq!(MODEL_FOLDER_NAME, "ocr_models");
}

#[test]
fn nothing_missing_means_ready() {
    let plan = TranscendiaOcr::check(true, true, true);
    assert!(plan.ready);
    assert!(plan.downloads.is_empty());
    assert!(!plan.show_download_view);
    assert!(check_for_models(true, true, true));
}

#[test]
fn two_of_three_missing_spawn_two_downloads() {
    let plan = TranscendiaOcr::check(false, true, false);
    assert!(!plan.ready);
    assert!(plan.show_download_view);
    assert_eq!(plan.downloads.len(), 2);
    assert_eq!(plan.downloads[0].local_filename, DETECTION_MODEL_NAME);
    assert_eq!(plan.downloads[1].local_filename, OCR_KEYS_NAME);
    assert!(!check_for_models(false, true, false));
}

#[test]
fn plan_counts_unlisted_presence_as_missing() {
    let models = model_list();
    let plan = plan_provisioning(&models, &vec![true]);
    assert_eq!(plan.downloads.len(), 2);
    assert_eq!(plan.downloads[0], models[1]);
    assert_eq!(plan.downloads[1], models[2]);
    let plan = plan_provisioning(&Vec::new(), &vec![false]);
    assert!(plan.ready);
}

#[test]
fn cancelling_one_download_leaves_the_other_untouched() {
    let plan = TranscendiaOcr::check(false, true, false);
    let mut a = download_model(plan.downloads[0], DownloadResponse::Streaming(Some(100))).unwrap();
    let mut b = download_model(plan.downloads[1], DownloadResponse::Streaming(Some(50))).unwrap();
    a.on_event(DownloadEvent::Chunk(10));
    b.on_event(DownloadEvent::Chunk(20));
    let b_before = b;
    let action = a.on_event(DownloadEvent::Cancelled);
    assert_eq!(action, DownloadAction::RemovePartialAndQuit(DETECTION_MODEL_NAME));
    assert_eq!(a.status, DownloadStatus::Cancelled);
    assert_eq!(b, b_before);
    assert_eq!(b.status, DownloadStatus::Active);
    assert_eq!(b.bytes_written, 20);
    // a second cancellation of the same download does nothing more
    assert_eq!(a.on_event(DownloadEvent::Cancelled), DownloadAction::Nothing);
}

#[test]
fn download_needs_a_content_length() {
    let model = model_list()[0];
    assert_eq!(
        download_model(model, DownloadResponse::Streaming(None)),
        Err(TranscendiaError::ContentLengthUnknown)
    );
    assert_eq!(
        download_model(model, DownloadResponse::Unreachable),
        Err(TranscendiaError::DownloadFailed)
    );
    assert_eq!(
        download_model(model, DownloadResponse::Streaming(Some(7))),
        Ok(DownloadJob { model, bytes_written: 0, total_size: 7, status: DownloadStatus::Active })
    );
}

#[test]
fn progress_is_reported_after_every_chunk() {
    let model = model_list()[1];
    let mut job = download_model(model, DownloadResponse::Streaming(Some(100))).unwrap();
    assert_eq!(
        job.on_event(DownloadEvent::Chunk(40)),
        DownloadAction::WriteAndReport(DownloadData {
            file: model.remote_url,
            progress: 40,
            total_size: 100
        })
    );
    assert_eq!(
        job.on_event(DownloadEvent::Chunk(40)),
        DownloadAction::WriteAndReport(DownloadData {
            file: model.remote_url,
            progress: 80,
            total_size: 100
        })
    );
    // more bytes than announced: the progress stops at the announced size
    assert_eq!(
        job.on_event(DownloadEvent::Chunk(u64::MAX)),
        DownloadAction::WriteAndReport(DownloadData {
            file: model.remote_url,
            progress: 100,
            total_size: 100
        })
    );
    assert_eq!(job.on_event(DownloadEvent::StreamEnd), DownloadAction::MarkSatisfied);
    assert_eq!(job.status, DownloadStatus::Complete);
    assert_eq!(job.on_event(DownloadEvent::Chunk(1)), DownloadAction::Nothing);
    assert_eq!(job.bytes_written, 100);
}

#[test]
fn stream_error_removes_partial_file() {
    let model = model_list()[2];
    let mut job = download_model(model, DownloadResponse::Streaming(Some(10))).unwrap();
    job.on_event(DownloadEvent::Chunk(3));
    assert_eq!(
        job.on_event(DownloadEvent::StreamError),
        DownloadAction::RemovePartial(OCR_KEYS_NAME)
    );
    assert_eq!(job.status, DownloadStatus::Failed);
    assert_eq!(job.on_event(DownloadEvent::StreamEnd), DownloadAction::Nothing);
    assert_eq!(job.status, DownloadStatus::Failed);
}
