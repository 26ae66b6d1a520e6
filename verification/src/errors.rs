//! The failures the library reports, and how far each one reaches.

use vstd::prelude::*;

verus! {

/// Everything that can go wrong in the pipeline and around it.
#[derive(Clone, Copy, Debug, PartialEq, Eq, Structural)]
pub enum TranscendiaError {
    /// The stored configuration could not be read.
    CannotLoadConfig,
    /// The configuration could not be stored.
    CannotSaveConfig,
    /// The list of displays could not be obtained.
    CannotGetMonitors,
    /// The requested display is not among the active ones.
    MonitorNotFound,
    /// The screen could not be captured.
    CaptureFailed,
    /// Text recognition failed on the captured image.
    RecognitionFailed,
    /// The translation service could not be reached in time.
    TranslationUnavailable,
    /// The translation service answered in an unexpected shape.
    TranslationParseError,
    /// The server did not announce the size of a model file.
    ContentLengthUnknown,
    /// A model download broke off.
    DownloadFailed,
    /// Screen recording is not permitted.
    PermissionDenied,
}

/// What a failure brings to an end.
#[derive(Clone, Copy, Debug, PartialEq, Eq, Structural)]
pub enum FailureScope {
    /// The command that was being served; nothing else.
    Command,
    /// Nothing: a substitute is used and work goes on.
    Degraded,
    /// The current tick; the loop goes on with the next one.
    Tick,
    /// One model file; provisioning reports that it is not ready.
    Artifact,
    /// The whole scheduling task.
    Task,
}

impl TranscendiaError {
    pub open spec fn spec_scope(self) -> FailureScope {
        match self {
            TranscendiaError::CannotLoadConfig => FailureScope::Command,
            TranscendiaError::CannotSaveConfig => FailureScope::Command,
            TranscendiaError::CannotGetMonitors => FailureScope::Command,
            TranscendiaError::MonitorNotFound => FailureScope::Degraded,
            TranscendiaError::CaptureFailed => FailureScope::Tick,
            TranscendiaError::RecognitionFailed => FailureScope::Tick,
            TranscendiaError::TranslationUnavailable => FailureScope::Tick,
            TranscendiaError::TranslationParseError => FailureScope::Tick,
            TranscendiaError::ContentLengthUnknown => FailureScope::Artifact,
            TranscendiaError::DownloadFailed => FailureScope::Artifact,
            TranscendiaError::PermissionDenied => FailureScope::Task,
        }
    }

    /// How far this failure reaches.
    pub fn scope(&self) -> (s: FailureScope)
        ensures
            s == self.spec_scope(),
    {
        match self {
            TranscendiaError::CannotLoadConfig => FailureScope::Command,
            TranscendiaError::CannotSaveConfig => FailureScope::Command,
            TranscendiaError::CannotGetMonitors => FailureScope::Command,
            TranscendiaError::MonitorNotFound => FailureScope::Degraded,
            TranscendiaError::CaptureFailed => FailureScope::Tick,
            TranscendiaError::RecognitionFailed => FailureScope::Tick,
            TranscendiaError::TranslationUnavailable => FailureScope::Tick,
            TranscendiaError::TranslationParseError => FailureScope::Tick,
            TranscendiaError::ContentLengthUnknown => FailureScope::Artifact,
            TranscendiaError::DownloadFailed => FailureScope::Artifact,
            TranscendiaError::PermissionDenied => FailureScope::Task,
        }
    }

    /// Whether the pipeline goes on after this failure, with a substitute
    /// or at the cost of one tick.
    pub fn is_recoverable(&self) -> (r: bool)
        ensures
            r == (self.spec_scope() == FailureScope::Degraded || self.spec_scope()
                == FailureScope::Tick),
    {
        match self.scope() {
            FailureScope::Degraded => true,
            FailureScope::Tick => true,
            _ => false,
        }
    }
}

} // verus!
