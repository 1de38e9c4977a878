//! Error taxonomy shared by the codec, the stores and the delivery resolver.

use vstd::prelude::*;

verus! {

/// A request-time failure surfaced synchronously to the client.
///
/// `StillProcessing` is a retryable condition rather than a true error: the
/// record exists but the pipeline has not finalized it yet.
#[derive(Clone, Copy, PartialEq, Eq, Structural, Debug)]
pub enum MediaServeError {
    InvalidIdentifier,
    NotFound,
    StillProcessing,
    IncompatibleMediaType,
    RangeNotSatisfiable,
}

/// Mathematical image of a pipeline failure.
#[verifier::ext_equal]
pub ghost struct MediaErrorView {
    pub error: Seq<char>,
    pub ffmpeg_error: Option<Seq<char>>,
}

/// A pipeline-side failure: a short human-readable summary, plus the
/// encoder's captured stderr when an external invocation failed.
#[derive(Debug)]
pub struct MediaError {
    pub error: String,
    pub ffmpeg_error: Option<String>,
}

impl View for MediaError {
    type V = MediaErrorView;

    open spec fn view(&self) -> MediaErrorView {
        MediaErrorView {
            error: self.error@,
            ffmpeg_error: self.ffmpeg_error.deep_view(),
        }
    }
}

impl MediaError {
    pub fn new(error: String, ffmpeg_error: Option<String>) -> (r: Self)
        ensures
            r.error == error,
            r.ffmpeg_error == ffmpeg_error,
    {
        Self { error, ffmpeg_error }
    }

    /// A summary-only failure, as raised by the validation steps that never
    /// ran the encoder.
    pub fn from_message(message: &str) -> (r: Self)
        ensures
            r.error@ == message@,
            r.ffmpeg_error is None,
    {
        Self { error: message.to_owned(), ffmpeg_error: None }
    }
}

} // verus!
