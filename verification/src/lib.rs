//! Core logic of a screen-translation overlay: the geometry of the captured
//! region and the cut that takes it out of a capture, the translation
//! request and its answer, the provisioning of the recognition models, and
//! the scheduler that drives capture, recognition and translation.
//!
//! Nothing here touches the screen, the disk or the network: callers
//! perform the capture, the recognition and the traffic, and hand the
//! outcomes to these functions.

pub mod bitmap;
pub mod commands;
pub mod config;
pub mod errors;
pub mod events;
pub mod json;
pub mod monitors;
pub mod ocr_models;
pub mod runtime;
pub mod scheduler;
pub mod translate;
pub mod url;
