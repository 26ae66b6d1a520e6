use transcendia::config::{Config, Region};
use transcendia::errors::{FailureScope, TranscendiaError};
use transcendia::events::Events;

#[test]
fn event_names() {
    assert_eq!(Events::OnOffConfigTrayItem.as_str(), "OnOffConfigTrayItem");
    assert_eq!(Events::RefreshOverlay.as_str(), "RefreshOverlay");
    assert_eq!(Events::NewTranslatedText.as_str(), "NewTranslatedText");
    assert_eq!(Events::DownloadProgress.as_str(), "DownloadProgress");
    assert_eq!(Events::StopDownload.as_str(), "StopDownload");
}

#[test]
fn failure_scopes() {
    assert_eq!(TranscendiaError::MonitorNotFound.scope(), FailureScope::Degraded);
    assert_eq!(TranscendiaError::CaptureFailed.scope(), FailureScope::Tick);
    assert_eq!(TranscendiaError::RecognitionFailed.scope(), FailureScope::Tick);
    assert_eq!(TranscendiaError::TranslationUnavailable.scope(), FailureScope::Tick);
    assert_eq!(TranscendiaError::TranslationParseError.scope(), FailureScope::Tick);
    assert_eq!(TranscendiaError::ContentLengthUnknown.scope(), FailureScope::Artifact);
    assert_eq!(TranscendiaError::DownloadFailed.scope(), FailureScope::Artifact);
    assert_eq!(TranscendiaError::PermissionDenied.scope(), FailureScope::Task);
    assert_eq!(TranscendiaError::CannotLoadConfig.scope(), FailureScope::Command);
    assert_eq!(TranscendiaError::CannotSaveConfig.scope(), FailureScope::Command);
    assert_eq!(TranscendiaError::CannotGetMonitors.scope(), FailureScope::Command);
    assert!(TranscendiaError::MonitorNotFound.is_recoverable());
    assert!(TranscendiaError::TranslationParseError.is_recoverable());
    assert!(!TranscendiaError::PermissionDenied.is_recoverable());
    assert!(!TranscendiaError::DownloadFailed.is_recoverable());
    assert!(!TranscendiaError::CannotLoadConfig.is_recoverable());
    assert!(!TranscendiaError::ContentLengthUnknown.is_recoverable());
}

#[test]
fn default_config() {
    let c = Config::default();
    assert!(c.region.is_none());
    assert_eq!(c.monitor, 0);
    assert_eq!(c.text_align, "C:C");
    assert_eq!(c.text_color, "#FFFFFF");
    assert_eq!(c.text_size, 16);
    assert_eq!(c.background_color, "#00000066");
    assert!(c.blur_background);
    assert_eq!(c.interval, 1);
    assert_eq!(c.lang, "en");
}

#[test]
fn region_validity() {
    assert!(Region { x: 0, y: 0, w: 1, h: 1 }.check());
    assert!(!Region { x: 0, y: 0, w: 0, h: 1 }.check());
    assert!(!Region { x: 5, y: 5, w: 1, h: 0 }.check());
}
