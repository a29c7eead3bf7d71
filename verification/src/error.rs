//! What can go wrong in a capture, and how it is told to the user.
use vstd::prelude::*;

use crate::text::{join2, join3};

verus! {

/// A failure of the capture, of a file it writes or of the playback.
#[derive(Debug)]
pub enum CaptureError {
    Unsupported(String),
    FrameworkInit(String),
    MissingElement(String),
    NoEncoder,
    NoAudioEncoder,
    MonitorNotFound(String),
    PipelineBuild(String),
    Pipeline { message: String, element: String },
    /// An audio source failed. `key` identifies the source so the caller can
    /// continue without it.
    AudioSource { key: String, message: String },
    EncoderStart { encoder: String, reason: String },
    AllEncodersFailed(String),
    AlreadyRunning,
    /// The start was called off before it delivered a frame.
    Cancelled,
    ClipWrite { path: String, reason: String },
    EmptyBuffer,
    Media { path: String, reason: String },
    Playback(String),
    GameCapture(String),
}

impl Clone for CaptureError {
    fn clone(&self) -> (r: Self)
        ensures
            r == *self,
    {
        match self {
            CaptureError::Unsupported(s) => CaptureError::Unsupported(s.clone()),
            CaptureError::FrameworkInit(s) => CaptureError::FrameworkInit(s.clone()),
            CaptureError::MissingElement(s) => CaptureError::MissingElement(s.clone()),
            CaptureError::NoEncoder => CaptureError::NoEncoder,
            CaptureError::NoAudioEncoder => CaptureError::NoAudioEncoder,
            CaptureError::MonitorNotFound(s) => CaptureError::MonitorNotFound(s.clone()),
            CaptureError::PipelineBuild(s) => CaptureError::PipelineBuild(s.clone()),
            CaptureError::Pipeline { message, element } => CaptureError::Pipeline {
                message: message.clone(),
                element: element.clone(),
            },
            CaptureError::AudioSource { key, message } => CaptureError::AudioSource {
                key: key.clone(),
                message: message.clone(),
            },
            CaptureError::EncoderStart { encoder, reason } => CaptureError::EncoderStart {
                encoder: encoder.clone(),
                reason: reason.clone(),
            },
            CaptureError::AllEncodersFailed(s) => CaptureError::AllEncodersFailed(s.clone()),
            CaptureError::AlreadyRunning => CaptureError::AlreadyRunning,
            CaptureError::Cancelled => CaptureError::Cancelled,
            CaptureError::ClipWrite { path, reason } => CaptureError::ClipWrite {
                path: path.clone(),
                reason: reason.clone(),
            },
            CaptureError::EmptyBuffer => CaptureError::EmptyBuffer,
            CaptureError::Media { path, reason } => CaptureError::Media {
                path: path.clone(),
                reason: reason.clone(),
            },
            CaptureError::Playback(s) => CaptureError::Playback(s.clone()),
            CaptureError::GameCapture(s) => CaptureError::GameCapture(s.clone()),
        }
    }
}

impl CaptureError {
    /// The sentence that describes the failure.
    pub open spec fn text(self) -> Seq<char> {
        match self {
            CaptureError::Unsupported(platform) => "capture is not supported on "@ + platform@,
            CaptureError::FrameworkInit(reason) => "the media framework failed to initialize: "@
                + reason@,
            CaptureError::MissingElement(element) => "required media component \""@ + element@
                + "\" is missing (check the GStreamer plugins)"@,
            CaptureError::NoEncoder => "no usable video encoder was found"@,
            CaptureError::NoAudioEncoder => "no AAC audio encoder was found"@,
            CaptureError::MonitorNotFound(id) => "display \""@ + id@ + "\" was not found"@,
            CaptureError::PipelineBuild(reason) => "failed to build the capture pipeline: "@
                + reason@,
            CaptureError::Pipeline { message, element: _ } => "the capture pipeline failed: "@
                + message@,
            CaptureError::AudioSource { key, message } => "audio source "@ + key@ + " failed: "@
                + message@,
            CaptureError::EncoderStart { encoder, reason } => "encoder "@ + encoder@
                + " could not start: "@ + reason@,
            CaptureError::AllEncodersFailed(failures) => "no video encoder could start: "@
                + failures@,
            CaptureError::AlreadyRunning => "capture is already running"@,
            CaptureError::Cancelled => "the capture start was cancelled"@,
            CaptureError::ClipWrite { path, reason } => "failed to write clip "@ + path@ + ": "@
                + reason@,
            CaptureError::EmptyBuffer => "the replay buffer is empty, nothing to save"@,
            CaptureError::Media { path, reason } => "could not read "@ + path@ + ": "@ + reason@,
            CaptureError::Playback(reason) => "playback failed: "@ + reason@,
            CaptureError::GameCapture(reason) => "game capture failed: "@ + reason@,
        }
    }

    /// The sentence that describes the failure.
    pub fn message(&self) -> (r: String)
        ensures
            r@ == self.text(),
    {
        match self {
            CaptureError::Unsupported(platform) => join2(
                "capture is not supported on ",
                platform.as_str(),
            ),
            CaptureError::FrameworkInit(reason) => join2(
                "the media framework failed to initialize: ",
                reason.as_str(),
            ),
            CaptureError::MissingElement(element) => join3(
                "required media component \"",
                element.as_str(),
                "\" is missing (check the GStreamer plugins)",
            ),
            CaptureError::NoEncoder => "no usable video encoder was found".to_owned(),
            CaptureError::NoAudioEncoder => "no AAC audio encoder was found".to_owned(),
            CaptureError::MonitorNotFound(id) => join3(
                "display \"",
                id.as_str(),
                "\" was not found",
            ),
            CaptureError::PipelineBuild(reason) => join2(
                "failed to build the capture pipeline: ",
                reason.as_str(),
            ),
            CaptureError::Pipeline { message, element: _ } => join2(
                "the capture pipeline failed: ",
                message.as_str(),
            ),
            CaptureError::AudioSource { key, message } => {
                let mut s = join3("audio source ", key.as_str(), " failed: ");
                s.append(message.as_str());
                s
            },
            CaptureError::EncoderStart { encoder, reason } => {
                let mut s = join3("encoder ", encoder.as_str(), " could not start: ");
                s.append(reason.as_str());
                s
            },
            CaptureError::AllEncodersFailed(failures) => join2(
                "no video encoder could start: ",
                failures.as_str(),
            ),
            CaptureError::AlreadyRunning => "capture is already running".to_owned(),
            CaptureError::Cancelled => "the capture start was cancelled".to_owned(),
            CaptureError::ClipWrite { path, reason } => {
                let mut s = join3("failed to write clip ", path.as_str(), ": ");
                s.append(reason.as_str());
                s
            },
            CaptureError::EmptyBuffer => "the replay buffer is empty, nothing to save".to_owned(),
            CaptureError::Media { path, reason } => {
                let mut s = join3("could not read ", path.as_str(), ": ");
                s.append(reason.as_str());
                s
            },
            CaptureError::Playback(reason) => join2("playback failed: ", reason.as_str()),
            CaptureError::GameCapture(reason) => join2("game capture failed: ", reason.as_str()),
        }
    }
}

/// A failure that the application reports.
#[derive(Debug)]
pub enum AppError {
    /// A failure in the settings or in a file, described already.
    Core(String),
    Capture(CaptureError),
    Ui(String),
    Hotkey(String),
}

impl Clone for AppError {
    fn clone(&self) -> (r: Self)
        ensures
            r == *self,
    {
        match self {
            AppError::Core(s) => AppError::Core(s.clone()),
            AppError::Capture(e) => AppError::Capture(e.clone()),
            AppError::Ui(s) => AppError::Ui(s.clone()),
            AppError::Hotkey(s) => AppError::Hotkey(s.clone()),
        }
    }
}

impl AppError {
    /// The sentence that describes the failure.
    pub open spec fn text(self) -> Seq<char> {
        match self {
            AppError::Core(reason) => reason@,
            AppError::Capture(err) => err.text(),
            AppError::Ui(reason) => "UI error: "@ + reason@,
            AppError::Hotkey(reason) => "hotkey error: "@ + reason@,
        }
    }

    /// The sentence that describes the failure.
    pub fn message(&self) -> (r: String)
        ensures
            r@ == self.text(),
    {
        match self {
            AppError::Core(reason) => reason.clone(),
            AppError::Capture(err) => err.message(),
            AppError::Ui(reason) => join2("UI error: ", reason.as_str()),
            AppError::Hotkey(reason) => join2("hotkey error: ", reason.as_str()),
        }
    }
}

} // verus!
