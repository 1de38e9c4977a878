//! Transcode pipeline step machines.
//!
//! Each upload kind runs a fixed sequence of encoder invocations. The
//! machine hands out the next step, records each step's outcome, refuses to
//! continue past a failure, and finally aggregates the produced variants or
//! the failure. The caller performs the invocations and feeds the outcomes
//! back; every decision is made here.

use vstd::prelude::*;

use crate::errors::{MediaError, MediaErrorView};
use crate::probe::{AudioPlan, PhotoPlan, VideoPlan};
use crate::record::{
    spec_opt_bytes, AudioUpdateQuery, AudioUpdateQueryView, PhotoRole, PhotoUpdateQuery,
    PhotoUpdateQueryView, VideoUpdateQuery, VideoUpdateQueryView,
};

verus! {

// ---------------------------------------------------------------- results

#[verifier::ext_equal]
pub ghost struct PhotoResultView {
    pub jpg_small: Seq<u8>,
    pub jpg_medium: Option<Seq<u8>>,
    pub jpg_large: Option<Seq<u8>>,
}

/// Variants produced by a completed photo run.
#[derive(Debug)]
pub struct PhotoResult {
    pub jpg_small: Vec<u8>,
    pub jpg_medium: Option<Vec<u8>>,
    pub jpg_large: Option<Vec<u8>>,
}

impl View for PhotoResult {
    type V = PhotoResultView;

    open spec fn view(&self) -> PhotoResultView {
        PhotoResultView {
            jpg_small: self.jpg_small@,
            jpg_medium: spec_opt_bytes(self.jpg_medium),
            jpg_large: spec_opt_bytes(self.jpg_large),
        }
    }
}

#[verifier::ext_equal]
pub ghost struct VideoResultView {
    pub thumbnail: Seq<u8>,
    pub mp4_480p: Seq<u8>,
}

/// Variants produced by a completed video run.
#[derive(Debug)]
pub struct VideoResult {
    pub thumbnail: Vec<u8>,
    pub mp4_480p: Vec<u8>,
}

impl View for VideoResult {
    type V = VideoResultView;

    open spec fn view(&self) -> VideoResultView {
        VideoResultView { thumbnail: self.thumbnail@, mp4_480p: self.mp4_480p@ }
    }
}

#[verifier::ext_equal]
pub ghost struct AudioResultView {
    pub title: Option<Seq<char>>,
    pub artist: Option<Seq<char>>,
    pub thumbnail: Option<Seq<u8>>,
    pub mp3_128k: Seq<u8>,
}

/// Variants and tags produced by a completed audio run.
#[derive(Debug)]
pub struct AudioResult {
    pub title: Option<String>,
    pub artist: Option<String>,
    pub thumbnail: Option<Vec<u8>>,
    pub mp3_128k: Vec<u8>,
}

impl View for AudioResult {
    type V = AudioResultView;

    open spec fn view(&self) -> AudioResultView {
        AudioResultView {
            title: self.title.deep_view(),
            artist: self.artist.deep_view(),
            thumbnail: spec_opt_bytes(self.thumbnail),
            mp3_128k: self.mp3_128k@,
        }
    }
}

// ------------------------------------------------------------------ steps

/// One encoder invocation of a photo run, in policy order.
#[derive(Clone, Copy, PartialEq, Eq, Structural, Debug)]
pub enum PhotoStep {
    Small,
    Medium,
    Large,
}

impl PhotoStep {
    /// Fixed filter arguments of this step's encoder invocation.
    pub open spec fn spec_filter_args(self) -> Seq<Seq<char>> {
        match self {
            PhotoStep::Small => seq![
                "-vf"@,
                "scale='min(512,iw)':'min(512,ih)':force_original_aspect_ratio=decrease"@,
            ],
            PhotoStep::Medium => seq![
                "-vf"@,
                "scale='min(max(768,iw), 1024)':'min(max(768,ih), 1024)':force_original_aspect_ratio=decrease"@,
            ],
            PhotoStep::Large => seq![
                "-vf"@,
                "scale='min(2048,iw)':'min(2048,ih)':force_original_aspect_ratio=decrease"@,
            ],
        }
    }

    pub fn filter_args(&self) -> (r: Vec<String>)
        ensures
            r.deep_view() == self.spec_filter_args(),
    {
        let r: Vec<String> = match self {
            PhotoStep::Small => vec![
                "-vf".to_owned(),
                "scale='min(512,iw)':'min(512,ih)':force_original_aspect_ratio=decrease".to_owned(),
            ],
            PhotoStep::Medium => vec![
                "-vf".to_owned(),
                "scale='min(max(768,iw), 1024)':'min(max(768,ih), 1024)':force_original_aspect_ratio=decrease".to_owned(),
            ],
            PhotoStep::Large => vec![
                "-vf".to_owned(),
                "scale='min(2048,iw)':'min(2048,ih)':force_original_aspect_ratio=decrease".to_owned(),
            ],
        };
        proof {
            assert(r.deep_view() =~~= self.spec_filter_args());
        }
        r
    }

    /// Output file name of this step inside the run's scratch directory.
    pub open spec fn spec_output_name(self) -> Seq<char> {
        match self {
            PhotoStep::Small => "output_small.jpg"@,
            PhotoStep::Medium => "output_medium.jpg"@,
            PhotoStep::Large => "output_large.jpg"@,
        }
    }

    pub fn output_name(&self) -> (r: &'static str)
        ensures
            r@ == self.spec_output_name(),
    {
        match self {
            PhotoStep::Small => "output_small.jpg",
            PhotoStep::Medium => "output_medium.jpg",
            PhotoStep::Large => "output_large.jpg",
        }
    }

    /// Failure summary persisted when this step's invocation fails.
    pub open spec fn spec_failure_message(self) -> Seq<char> {
        match self {
            PhotoStep::Small => "cannot process small photo"@,
            PhotoStep::Medium => "cannot process medium photo"@,
            PhotoStep::Large => "cannot process large photo"@,
        }
    }

    fn failure_message(&self) -> (r: &'static str)
        ensures
            r@ == self.spec_failure_message(),
    {
        match self {
            PhotoStep::Small => "cannot process small photo",
            PhotoStep::Medium => "cannot process medium photo",
            PhotoStep::Large => "cannot process large photo",
        }
    }
}

/// One encoder invocation of a video run, in policy order.
#[derive(Clone, Copy, PartialEq, Eq, Structural, Debug)]
pub enum VideoStep {
    Thumbnail,
    Rendition480p,
}

impl VideoStep {
    pub open spec fn spec_filter_args(self) -> Seq<Seq<char>> {
        match self {
            VideoStep::Thumbnail => seq![
                "-update"@,
                "true"@,
                "-frames:v"@,
                "1"@,
                "-vf"@,
                "scale='min(854,iw)':'min(854,ih)':force_original_aspect_ratio=decrease"@,
            ],
            VideoStep::Rendition480p => seq![
                "-map"@,
                "0:a:0"@,
                "-map"@,
                "0:v:0"@,
                "-pix_fmt"@,
                "yuv420p"@,
                "-crf"@,
                "28"@,
                "-preset"@,
                "ultrafast"@,
                "-vf"@,
                "scale='min(854,iw)':'min(854,ih)':force_original_aspect_ratio=decrease"@,
            ],
        }
    }

    pub fn filter_args(&self) -> (r: Vec<String>)
        ensures
            r.deep_view() == self.spec_filter_args(),
    {
        let r: Vec<String> = match self {
            VideoStep::Thumbnail => vec![
                "-update".to_owned(),
                "true".to_owned(),
                "-frames:v".to_owned(),
                "1".to_owned(),
                "-vf".to_owned(),
                "scale='min(854,iw)':'min(854,ih)':force_original_aspect_ratio=decrease".to_owned(),
            ],
            VideoStep::Rendition480p => vec![
                "-map".to_owned(),
                "0:a:0".to_owned(),
                "-map".to_owned(),
                "0:v:0".to_owned(),
                "-pix_fmt".to_owned(),
                "yuv420p".to_owned(),
                "-crf".to_owned(),
                "28".to_owned(),
                "-preset".to_owned(),
                "ultrafast".to_owned(),
                "-vf".to_owned(),
                "scale='min(854,iw)':'min(854,ih)':force_original_aspect_ratio=decrease".to_owned(),
            ],
        };
        proof {
            assert(r.deep_view() =~~= self.spec_filter_args());
        }
        r
    }

    pub open spec fn spec_output_name(self) -> Seq<char> {
        match self {
            VideoStep::Thumbnail => "output.jpg"@,
            VideoStep::Rendition480p => "output.mp4"@,
        }
    }

    pub fn output_name(&self) -> (r: &'static str)
        ensures
            r@ == self.spec_output_name(),
    {
        match self {
            VideoStep::Thumbnail => "output.jpg",
            VideoStep::Rendition480p => "output.mp4",
        }
    }

    pub open spec fn spec_failure_message(self) -> Seq<char> {
        match self {
            VideoStep::Thumbnail => "cannot process thumbnail photo"@,
            VideoStep::Rendition480p => "cannot process 480p video"@,
        }
    }

    fn failure_message(&self) -> (r: &'static str)
        ensures
            r@ == self.spec_failure_message(),
    {
        match self {
            VideoStep::Thumbnail => "cannot process thumbnail photo",
            VideoStep::Rendition480p => "cannot process 480p video",
        }
    }
}

/// One encoder invocation of an audio run, in policy order.
#[derive(Clone, Copy, PartialEq, Eq, Structural, Debug)]
pub enum AudioStep {
    Rendition128k,
    Thumbnail,
}

impl AudioStep {
    pub open spec fn spec_filter_args(self) -> Seq<Seq<char>> {
        match self {
            AudioStep::Rendition128k => seq!["-vn"@, "-map"@, "0:0"@, "-b:a"@, "128k"@],
            AudioStep::Thumbnail => seq!["-an"@, "-map"@, "0:1"@, "-vf"@, "scale=512:512"@],
        }
    }

    pub fn filter_args(&self) -> (r: Vec<String>)
        ensures
            r.deep_view() == self.spec_filter_args(),
    {
        let r: Vec<String> = match self {
            AudioStep::Rendition128k => vec![
                "-vn".to_owned(),
                "-map".to_owned(),
                "0:0".to_owned(),
                "-b:a".to_owned(),
                "128k".to_owned(),
            ],
            AudioStep::Thumbnail => vec![
                "-an".to_owned(),
                "-map".to_owned(),
                "0:1".to_owned(),
                "-vf".to_owned(),
                "scale=512:512".to_owned(),
            ],
        };
        proof {
            assert(r.deep_view() =~~= self.spec_filter_args());
        }
        r
    }

    pub open spec fn spec_output_name(self) -> Seq<char> {
        match self {
            AudioStep::Rendition128k => "output.mp3"@,
            AudioStep::Thumbnail => "output.jpg"@,
        }
    }

    pub fn output_name(&self) -> (r: &'static str)
        ensures
            r@ == self.spec_output_name(),
    {
        match self {
            AudioStep::Rendition128k => "output.mp3",
            AudioStep::Thumbnail => "output.jpg",
        }
    }

    pub open spec fn spec_failure_message(self) -> Seq<char> {
        match self {
            AudioStep::Rendition128k => "cannot process 128k audio"@,
            AudioStep::Thumbnail => "cannot process thumbnail audio"@,
        }
    }

    fn failure_message(&self) -> (r: &'static str)
        ensures
            r@ == self.spec_failure_message(),
    {
        match self {
            AudioStep::Rendition128k => "cannot process 128k audio",
            AudioStep::Thumbnail => "cannot process thumbnail audio",
        }
    }
}

/// Full encoder argument list: fixed input/metadata prefix, the step's
/// filter arguments, then the output path.
pub fn encoder_args(input_path: String, step_args: Vec<String>, output_path: String) -> (r: Vec<
    String,
>)
    ensures
        r.deep_view() == seq!["-i"@, input_path@, "-map_metadata"@, "-1"@]
            + step_args.deep_view() + seq![output_path@],
{
    let mut r: Vec<String> = Vec::new();
    r.push("-i".to_owned());
    r.push(input_path);
    r.push("-map_metadata".to_owned());
    r.push("-1".to_owned());
    let mut rest = step_args;
    r.append(&mut rest);
    r.push(output_path);
    proof {
        assert(r.deep_view() =~~= seq!["-i"@, input_path@, "-map_metadata"@, "-1"@]
            + step_args.deep_view() + seq![output_path@]);
    }
    r
}

// ------------------------------------------------------------- photo runs

#[verifier::ext_equal]
pub ghost struct PhotoRunView {
    pub plan: PhotoPlan,
    pub jpg_small: Option<Seq<u8>>,
    pub jpg_medium: Option<Seq<u8>>,
    pub jpg_large: Option<Seq<u8>>,
    pub failed: Option<MediaErrorView>,
}

/// The next step a photo run owes, if any: steps run in policy order, a
/// variant is produced only when planned, and nothing runs past a failure.
pub open spec fn spec_photo_next(run: PhotoRunView) -> Option<PhotoStep> {
    if run.failed is Some {
        None
    } else if run.jpg_small is None {
        Some(PhotoStep::Small)
    } else if run.plan.medium && run.jpg_medium is None {
        Some(PhotoStep::Medium)
    } else if run.plan.large && run.jpg_large is None {
        Some(PhotoStep::Large)
    } else {
        None
    }
}

/// State of one photo transcode run.
pub struct PhotoRun {
    plan: PhotoPlan,
    jpg_small: Option<Vec<u8>>,
    jpg_medium: Option<Vec<u8>>,
    jpg_large: Option<Vec<u8>>,
    failed: Option<MediaError>,
}

impl View for PhotoRun {
    type V = PhotoRunView;

    closed spec fn view(&self) -> PhotoRunView {
        PhotoRunView {
            plan: self.plan,
            jpg_small: spec_opt_bytes(self.jpg_small),
            jpg_medium: spec_opt_bytes(self.jpg_medium),
            jpg_large: spec_opt_bytes(self.jpg_large),
            failed: match self.failed {
                Some(e) => Some(e@),
                None => None,
            },
        }
    }
}

impl PhotoRun {
    pub fn new(plan: PhotoPlan) -> (r: PhotoRun)
        ensures
            r@ == (PhotoRunView {
                plan,
                jpg_small: None,
                jpg_medium: None,
                jpg_large: None,
                failed: None,
            }),
    {
        PhotoRun { plan, jpg_small: None, jpg_medium: None, jpg_large: None, failed: None }
    }

    /// The invocation to perform next; `None` once the run is over.
    pub fn next_step(&self) -> (r: Option<PhotoStep>)
        ensures
            r == spec_photo_next(self@),
    {
        if self.failed.is_some() {
            None
        } else if self.jpg_small.is_none() {
            Some(PhotoStep::Small)
        } else if self.plan.medium && self.jpg_medium.is_none() {
            Some(PhotoStep::Medium)
        } else if self.plan.large && self.jpg_large.is_none() {
            Some(PhotoStep::Large)
        } else {
            None
        }
    }

    /// Record the bytes a successful invocation produced.
    pub fn record_success(&mut self, step: PhotoStep, bytes: Vec<u8>)
        requires
            spec_photo_next(old(self)@) == Some(step),
        ensures
            final(self)@ == match step {
                PhotoStep::Small => (PhotoRunView { jpg_small: Some(bytes@), ..old(self)@ }),
                PhotoStep::Medium => (PhotoRunView { jpg_medium: Some(bytes@), ..old(self)@ }),
                PhotoStep::Large => (PhotoRunView { jpg_large: Some(bytes@), ..old(self)@ }),
            },
    {
        match step {
            PhotoStep::Small => self.jpg_small = Some(bytes),
            PhotoStep::Medium => self.jpg_medium = Some(bytes),
            PhotoStep::Large => self.jpg_large = Some(bytes),
        }
        proof {
            assert(final(self)@ =~= match step {
                PhotoStep::Small => (PhotoRunView { jpg_small: Some(bytes@), ..old(self)@ }),
                PhotoStep::Medium => (PhotoRunView { jpg_medium: Some(bytes@), ..old(self)@ }),
                PhotoStep::Large => (PhotoRunView { jpg_large: Some(bytes@), ..old(self)@ }),
            });
        }
    }

    /// Record a failed invocation: the run aborts with the step's summary
    /// and the encoder's stderr, and owes no further step.
    pub fn record_failure(&mut self, step: PhotoStep, stderr: String)
        requires
            spec_photo_next(old(self)@) == Some(step),
        ensures
            final(self)@ == (PhotoRunView {
                failed: Some(
                    MediaErrorView {
                        error: step.spec_failure_message(),
                        ffmpeg_error: Some(stderr@),
                    },
                ),
                ..old(self)@
            }),
            spec_photo_next(final(self)@) is None,
    {
        let message = step.failure_message();
        self.failed = Some(MediaError::new(message.to_owned(), Some(stderr)));
        proof {
            assert(final(self)@ =~= (PhotoRunView {
                failed: Some(
                    MediaErrorView {
                        error: step.spec_failure_message(),
                        ffmpeg_error: Some(stderr@),
                    },
                ),
                ..old(self)@
            }));
        }
    }

    /// Aggregate a finished run: the failure if one occurred, otherwise
    /// every produced variant.
    pub fn finish(self) -> (r: Result<PhotoResult, MediaError>)
        requires
            spec_photo_next(self@) is None,
        ensures
            match self@.failed {
                Some(e) => r is Err && r->Err_0@ == e,
                None => r is Ok && r->Ok_0@ == (PhotoResultView {
                    jpg_small: self@.jpg_small->0,
                    jpg_medium: self@.jpg_medium,
                    jpg_large: self@.jpg_large,
                }),
            },
    {
        let PhotoRun { plan: _, jpg_small, jpg_medium, jpg_large, failed } = self;
        match failed {
            Some(e) => Err(e),
            None => {
                let small = jpg_small.unwrap();
                let result = PhotoResult { jpg_small: small, jpg_medium, jpg_large };
                proof {
                    assert(result@ =~= (PhotoResultView {
                        jpg_small: self@.jpg_small->0,
                        jpg_medium: self@.jpg_medium,
                        jpg_large: self@.jpg_large,
                    }));
                }
                Ok(result)
            },
        }
    }
}

// ------------------------------------------------------------- video runs

#[verifier::ext_equal]
pub ghost struct VideoRunView {
    pub plan: VideoPlan,
    pub thumbnail: Option<Seq<u8>>,
    pub mp4_480p: Option<Seq<u8>>,
    pub failed: Option<MediaErrorView>,
}

pub open spec fn spec_video_next(run: VideoRunView) -> Option<VideoStep> {
    if run.failed is Some {
        None
    } else if run.thumbnail is None {
        Some(VideoStep::Thumbnail)
    } else if run.mp4_480p is None {
        Some(VideoStep::Rendition480p)
    } else {
        None
    }
}

/// State of one video transcode run.
pub struct VideoRun {
    plan: VideoPlan,
    thumbnail: Option<Vec<u8>>,
    mp4_480p: Option<Vec<u8>>,
    failed: Option<MediaError>,
}

impl View for VideoRun {
    type V = VideoRunView;

    closed spec fn view(&self) -> VideoRunView {
        VideoRunView {
            plan: self.plan,
            thumbnail: spec_opt_bytes(self.thumbnail),
            mp4_480p: spec_opt_bytes(self.mp4_480p),
            failed: match self.failed {
                Some(e) => Some(e@),
                None => None,
            },
        }
    }
}

impl VideoRun {
    pub fn new(plan: VideoPlan) -> (r: VideoRun)
        ensures
            r@ == (VideoRunView { plan, thumbnail: None, mp4_480p: None, failed: None }),
    {
        VideoRun { plan, thumbnail: None, mp4_480p: None, failed: None }
    }

    pub fn next_step(&self) -> (r: Option<VideoStep>)
        ensures
            r == spec_video_next(self@),
    {
        if self.failed.is_some() {
            None
        } else if self.thumbnail.is_none() {
            Some(VideoStep::Thumbnail)
        } else if self.mp4_480p.is_none() {
            Some(VideoStep::Rendition480p)
        } else {
            None
        }
    }

    pub fn record_success(&mut self, step: VideoStep, bytes: Vec<u8>)
        requires
            spec_video_next(old(self)@) == Some(step),
        ensures
            final(self)@ == match step {
                VideoStep::Thumbnail => (VideoRunView { thumbnail: Some(bytes@), ..old(self)@ }),
                VideoStep::Rendition480p => (VideoRunView {
                    mp4_480p: Some(bytes@),
                    ..old(self)@
                }),
            },
    {
        match step {
            VideoStep::Thumbnail => self.thumbnail = Some(bytes),
            VideoStep::Rendition480p => self.mp4_480p = Some(bytes),
        }
        proof {
            assert(final(self)@ =~= match step {
                VideoStep::Thumbnail => (VideoRunView { thumbnail: Some(bytes@), ..old(self)@ }),
                VideoStep::Rendition480p => (VideoRunView {
                    mp4_480p: Some(bytes@),
                    ..old(self)@
                }),
            });
        }
    }

    pub fn record_failure(&mut self, step: VideoStep, stderr: String)
        requires
            spec_video_next(old(self)@) == Some(step),
        ensures
            final(self)@ == (VideoRunView {
                failed: Some(
                    MediaErrorView {
                        error: step.spec_failure_message(),
                        ffmpeg_error: Some(stderr@),
                    },
                ),
                ..old(self)@
            }),
            spec_video_next(final(self)@) is None,
    {
        let message = step.failure_message();
        self.failed = Some(MediaError::new(message.to_owned(), Some(stderr)));
        proof {
            assert(final(self)@ =~= (VideoRunView {
                failed: Some(
                    MediaErrorView {
                        error: step.spec_failure_message(),
                        ffmpeg_error: Some(stderr@),
                    },
                ),
                ..old(self)@
            }));
        }
    }

    pub fn finish(self) -> (r: Result<VideoResult, MediaError>)
        requires
            spec_video_next(self@) is None,
        ensures
            match self@.failed {
                Some(e) => r is Err && r->Err_0@ == e,
                None => r is Ok && r->Ok_0@ == (VideoResultView {
                    thumbnail: self@.thumbnail->0,
                    mp4_480p: self@.mp4_480p->0,
                }),
            },
    {
        let VideoRun { plan: _, thumbnail, mp4_480p, failed } = self;
        match failed {
            Some(e) => Err(e),
            None => {
                let result = VideoResult { thumbnail: thumbnail.unwrap(), mp4_480p: mp4_480p.unwrap() };
                proof {
                    assert(result@ =~= (VideoResultView {
                        thumbnail: self@.thumbnail->0,
                        mp4_480p: self@.mp4_480p->0,
                    }));
                }
                Ok(result)
            },
        }
    }
}

// ------------------------------------------------------------- audio runs

#[verifier::ext_equal]
pub ghost struct AudioRunView {
    pub plan: AudioPlan,
    pub title: Option<Seq<char>>,
    pub artist: Option<Seq<char>>,
    pub thumbnail: Option<Seq<u8>>,
    pub mp3_128k: Option<Seq<u8>>,
    pub failed: Option<MediaErrorView>,
}

pub open spec fn spec_audio_next(run: AudioRunView) -> Option<AudioStep> {
    if run.failed is Some {
        None
    } else if run.mp3_128k is None {
        Some(AudioStep::Rendition128k)
    } else if run.plan.cover_art && run.thumbnail is None {
        Some(AudioStep::Thumbnail)
    } else {
        None
    }
}

/// State of one audio transcode run. The raw title and artist tags ride
/// along from the probe report to the aggregated result.
pub struct AudioRun {
    plan: AudioPlan,
    title: Option<String>,
    artist: Option<String>,
    thumbnail: Option<Vec<u8>>,
    mp3_128k: Option<Vec<u8>>,
    failed: Option<MediaError>,
}

impl View for AudioRun {
    type V = AudioRunView;

    closed spec fn view(&self) -> AudioRunView {
        AudioRunView {
            plan: self.plan,
            title: self.title.deep_view(),
            artist: self.artist.deep_view(),
            thumbnail: spec_opt_bytes(self.thumbnail),
            mp3_128k: spec_opt_bytes(self.mp3_128k),
            failed: match self.failed {
                Some(e) => Some(e@),
                None => None,
            },
        }
    }
}

impl AudioRun {
    pub fn new(plan: AudioPlan, title: Option<String>, artist: Option<String>) -> (r: AudioRun)
        ensures
            r@ == (AudioRunView {
                plan,
                title: title.deep_view(),
                artist: artist.deep_view(),
                thumbnail: None,
                mp3_128k: None,
                failed: None,
            }),
    {
        AudioRun { plan, title, artist, thumbnail: None, mp3_128k: None, failed: None }
    }

    pub fn next_step(&self) -> (r: Option<AudioStep>)
        ensures
            r == spec_audio_next(self@),
    {
        if self.failed.is_some() {
            None
        } else if self.mp3_128k.is_none() {
            Some(AudioStep::Rendition128k)
        } else if self.plan.cover_art && self.thumbnail.is_none() {
            Some(AudioStep::Thumbnail)
        } else {
            None
        }
    }

    pub fn record_success(&mut self, step: AudioStep, bytes: Vec<u8>)
        requires
            spec_audio_next(old(self)@) == Some(step),
        ensures
            final(self)@ == match step {
                AudioStep::Rendition128k => (AudioRunView {
                    mp3_128k: Some(bytes@),
                    ..old(self)@
                }),
                AudioStep::Thumbnail => (AudioRunView { thumbnail: Some(bytes@), ..old(self)@ }),
            },
    {
        match step {
            AudioStep::Rendition128k => self.mp3_128k = Some(bytes),
            AudioStep::Thumbnail => self.thumbnail = Some(bytes),
        }
        proof {
            assert(final(self)@ =~= match step {
                AudioStep::Rendition128k => (AudioRunView {
                    mp3_128k: Some(bytes@),
                    ..old(self)@
                }),
                AudioStep::Thumbnail => (AudioRunView { thumbnail: Some(bytes@), ..old(self)@ }),
            });
        }
    }

    pub fn record_failure(&mut self, step: AudioStep, stderr: String)
        requires
            spec_audio_next(old(self)@) == Some(step),
        ensures
            final(self)@ == (AudioRunView {
                failed: Some(
                    MediaErrorView {
                        error: step.spec_failure_message(),
                        ffmpeg_error: Some(stderr@),
                    },
                ),
                ..old(self)@
            }),
            spec_audio_next(final(self)@) is None,
    {
        let message = step.failure_message();
        self.failed = Some(MediaError::new(message.to_owned(), Some(stderr)));
        proof {
            assert(final(self)@ =~= (AudioRunView {
                failed: Some(
                    MediaErrorView {
                        error: step.spec_failure_message(),
                        ffmpeg_error: Some(stderr@),
                    },
                ),
                ..old(self)@
            }));
        }
    }

    pub fn finish(self) -> (r: Result<AudioResult, MediaError>)
        requires
            spec_audio_next(self@) is None,
        ensures
            match self@.failed {
                Some(e) => r is Err && r->Err_0@ == e,
                None => r is Ok && r->Ok_0@ == (AudioResultView {
                    title: self@.title,
                    artist: self@.artist,
                    thumbnail: self@.thumbnail,
                    mp3_128k: self@.mp3_128k->0,
                }),
            },
    {
        let AudioRun { plan: _, title, artist, thumbnail, mp3_128k, failed } = self;
        match failed {
            Some(e) => Err(e),
            None => {
                let result = AudioResult { title, artist, thumbnail, mp3_128k: mp3_128k.unwrap() };
                proof {
                    assert(result@ =~= (AudioResultView {
                        title: self@.title,
                        artist: self@.artist,
                        thumbnail: self@.thumbnail,
                        mp3_128k: self@.mp3_128k->0,
                    }));
                }
                Ok(result)
            },
        }
    }
}

// ----------------------------------------------------------- finalization

/// Length cap applied to persisted title and artist tags.
pub open spec fn tag_cap() -> int {
    100
}

/// A tag as persisted: at most the first 100 characters.
pub open spec fn spec_truncate_tag(s: Seq<char>) -> Seq<char> {
    if s.len() <= tag_cap() {
        s
    } else {
        s.take(tag_cap())
    }
}

/// Cap a tag at 100 characters, keeping a short tag as it is.
pub fn truncate_tag(s: String) -> (r: String)
    ensures
        r@ == spec_truncate_tag(s@),
{
    broadcast use vstd::string::next_postcondition;
    broadcast use vstd::string::axiom_spec_iter;

    let mut taken: Vec<char> = Vec::new();
    let mut iter = s.as_str().chars();
    loop
        invariant
            taken@.len() <= tag_cap(),
            taken@ + vstd::std_specs::iter::IteratorSpec::remaining(&iter) == s@,
        ensures
            taken@ == s@ || (taken@.len() == tag_cap() && taken@ == s@.take(tag_cap())),
        decreases tag_cap() - taken@.len(),
    {
        if taken.len() == 100 {
            proof {
                assert(taken@ =~= s@.take(tag_cap()));
            }
            break;
        }
        match iter.next() {
            Some(c) => taken.push(c),
            None => {
                proof {
                    assert(taken@ =~= s@);
                }
                break;
            },
        }
    }
    if taken.len() < 100 {
        s
    } else {
        crate::text::chars_to_string(&taken)
    }
}

/// The one patch a successful photo run applies: clear `processing`, leave
/// the error untouched, stamp the role flags, and store every produced
/// variant.
pub open spec fn spec_photo_success_query(
    result: PhotoResultView,
    role: PhotoRole,
) -> PhotoUpdateQueryView {
    PhotoUpdateQueryView {
        processing: Some(false),
        processing_error: None,
        profile_picture: Some(role == PhotoRole::ProfilePicture),
        banner: Some(role == PhotoRole::Banner),
        jpg_small: Some(result.jpg_small),
        jpg_medium: result.jpg_medium,
        jpg_large: result.jpg_large,
    }
}

pub fn photo_success_query(result: PhotoResult, role: PhotoRole) -> (q: PhotoUpdateQuery)
    ensures
        q@ == spec_photo_success_query(result@, role),
{
    let q = PhotoUpdateQuery {
        processing: Some(false),
        processing_error: None,
        profile_picture: Some(match role {
            PhotoRole::ProfilePicture => true,
            _ => false,
        }),
        banner: Some(match role {
            PhotoRole::Banner => true,
            _ => false,
        }),
        jpg_small: Some(result.jpg_small),
        jpg_medium: result.jpg_medium,
        jpg_large: result.jpg_large,
    };
    proof {
        assert(q@ =~= spec_photo_success_query(result@, role));
    }
    q
}

/// The one patch a failed run applies: clear `processing` and persist the
/// failure summary. The captured stderr is diagnostic only and never
/// reaches the record.
pub open spec fn spec_photo_failure_query(error: MediaErrorView) -> PhotoUpdateQueryView {
    PhotoUpdateQueryView {
        processing: Some(false),
        processing_error: Some(error.error),
        profile_picture: None,
        banner: None,
        jpg_small: None,
        jpg_medium: None,
        jpg_large: None,
    }
}

pub fn photo_failure_query(error: MediaError) -> (q: PhotoUpdateQuery)
    ensures
        q@ == spec_photo_failure_query(error@),
{
    let q = PhotoUpdateQuery {
        processing: Some(false),
        processing_error: Some(error.error),
        profile_picture: None,
        banner: None,
        jpg_small: None,
        jpg_medium: None,
        jpg_large: None,
    };
    proof {
        assert(q@ =~= spec_photo_failure_query(error@));
    }
    q
}

pub open spec fn spec_video_success_query(result: VideoResultView) -> VideoUpdateQueryView {
    VideoUpdateQueryView {
        processing: Some(false),
        processing_error: None,
        thumbnail: Some(result.thumbnail),
        mp4_480p: Some(result.mp4_480p),
    }
}

pub fn video_success_query(result: VideoResult) -> (q: VideoUpdateQuery)
    ensures
        q@ == spec_video_success_query(result@),
{
    let q = VideoUpdateQuery {
        processing: Some(false),
        processing_error: None,
        thumbnail: Some(result.thumbnail),
        mp4_480p: Some(result.mp4_480p),
    };
    proof {
        assert(q@ =~= spec_video_success_query(result@));
    }
    q
}

pub open spec fn spec_video_failure_query(error: MediaErrorView) -> VideoUpdateQueryView {
    VideoUpdateQueryView {
        processing: Some(false),
        processing_error: Some(error.error),
        thumbnail: None,
        mp4_480p: None,
    }
}

pub fn video_failure_query(error: MediaError) -> (q: VideoUpdateQuery)
    ensures
        q@ == spec_video_failure_query(error@),
{
    let q = VideoUpdateQuery {
        processing: Some(false),
        processing_error: Some(error.error),
        thumbnail: None,
        mp4_480p: None,
    };
    proof {
        assert(q@ =~= spec_video_failure_query(error@));
    }
    q
}

/// The one patch a successful audio run applies; tags are capped at 100
/// characters before persisting.
pub open spec fn spec_audio_success_query(result: AudioResultView) -> AudioUpdateQueryView {
    AudioUpdateQueryView {
        processing: Some(false),
        processing_error: None,
        title: match result.title {
            Some(t) => Some(spec_truncate_tag(t)),
            None => None,
        },
        artist: match result.artist {
            Some(a) => Some(spec_truncate_tag(a)),
            None => None,
        },
        thumbnail: result.thumbnail,
        mp3_128k: Some(result.mp3_128k),
    }
}

pub fn audio_success_query(result: AudioResult) -> (q: AudioUpdateQuery)
    ensures
        q@ == spec_audio_success_query(result@),
{
    let q = AudioUpdateQuery {
        processing: Some(false),
        processing_error: None,
        title: match result.title {
            Some(t) => Some(truncate_tag(t)),
            None => None,
        },
        artist: match result.artist {
            Some(a) => Some(truncate_tag(a)),
            None => None,
        },
        thumbnail: result.thumbnail,
        mp3_128k: Some(result.mp3_128k),
    };
    proof {
        assert(q@ =~= spec_audio_success_query(result@));
    }
    q
}

pub open spec fn spec_audio_failure_query(error: MediaErrorView) -> AudioUpdateQueryView {
    AudioUpdateQueryView {
        processing: Some(false),
        processing_error: Some(error.error),
        title: None,
        artist: None,
        thumbnail: None,
        mp3_128k: None,
    }
}

pub fn audio_failure_query(error: MediaError) -> (q: AudioUpdateQuery)
    ensures
        q@ == spec_audio_failure_query(error@),
{
    let q = AudioUpdateQuery {
        processing: Some(false),
        processing_error: Some(error.error),
        title: None,
        artist: None,
        thumbnail: None,
        mp3_128k: None,
    };
    proof {
        assert(q@ =~= spec_audio_failure_query(error@));
    }
    q
}

// ------------------------------------------------------------------- laws

/// After a successful photo run is applied to a record that carried no
/// error, the record is finalized: not processing, no error, and the small
/// variant — hence at least one variant — populated.
pub proof fn lemma_photo_success_finalizes(
    record: crate::record::PhotoView,
    result: PhotoResultView,
    role: PhotoRole,
)
    requires
        record.processing_error is None,
    ensures
        ({
            let after = crate::record::spec_apply_photo(
                record,
                spec_photo_success_query(result, role),
            );
            &&& !after.processing
            &&& after.processing_error is None
            &&& after.jpg_small is Some
        }),
{
}

/// After a failed photo run is applied, the record is out of processing and
/// carries the failure summary, so one status check can observe it.
pub proof fn lemma_photo_failure_marks(record: crate::record::PhotoView, error: MediaErrorView)
    ensures
        ({
            let after = crate::record::spec_apply_photo(record, spec_photo_failure_query(error));
            &&& !after.processing
            &&& after.processing_error == Some(error.error)
        }),
{
}

/// After a successful video run is applied to a record that carried no
/// error, the record is finalized with both variants populated.
pub proof fn lemma_video_success_finalizes(
    record: crate::record::VideoView,
    result: VideoResultView,
)
    requires
        record.processing_error is None,
    ensures
        ({
            let after = crate::record::spec_apply_video(record, spec_video_success_query(result));
            &&& !after.processing
            &&& after.processing_error is None
            &&& after.thumbnail is Some
            &&& after.mp4_480p is Some
        }),
{
}

pub proof fn lemma_video_failure_marks(record: crate::record::VideoView, error: MediaErrorView)
    ensures
        ({
            let after = crate::record::spec_apply_video(record, spec_video_failure_query(error));
            &&& !after.processing
            &&& after.processing_error == Some(error.error)
        }),
{
}

/// After a successful audio run is applied to a record that carried no
/// error, the record is finalized with the rendition populated.
pub proof fn lemma_audio_success_finalizes(
    record: crate::record::AudioView,
    result: AudioResultView,
)
    requires
        record.processing_error is None,
    ensures
        ({
            let after = crate::record::spec_apply_audio(record, spec_audio_success_query(result));
            &&& !after.processing
            &&& after.processing_error is None
            &&& after.mp3_128k is Some
        }),
{
}

pub proof fn lemma_audio_failure_marks(record: crate::record::AudioView, error: MediaErrorView)
    ensures
        ({
            let after = crate::record::spec_apply_audio(record, spec_audio_failure_query(error));
            &&& !after.processing
            &&& after.processing_error == Some(error.error)
        }),
{
}

/// The record lifecycle keeps the data-model invariant: the placeholder
/// satisfies it, and so does the one patch the pipeline applies to it,
/// whether the run succeeded or failed.
pub proof fn lemma_photo_lifecycle_invariant(
    result: PhotoResultView,
    role: PhotoRole,
    error: MediaErrorView,
)
    ensures
        crate::record::spec_photo_invariant(crate::record::spec_photo_placeholder()),
        crate::record::spec_photo_invariant(
            crate::record::spec_apply_photo(
                crate::record::spec_photo_placeholder(),
                spec_photo_success_query(result, role),
            ),
        ),
        crate::record::spec_photo_invariant(
            crate::record::spec_apply_photo(
                crate::record::spec_photo_placeholder(),
                spec_photo_failure_query(error),
            ),
        ),
{
}

pub proof fn lemma_video_lifecycle_invariant(result: VideoResultView, error: MediaErrorView)
    ensures
        crate::record::spec_video_invariant(crate::record::spec_video_placeholder()),
        crate::record::spec_video_invariant(
            crate::record::spec_apply_video(
                crate::record::spec_video_placeholder(),
                spec_video_success_query(result),
            ),
        ),
        crate::record::spec_video_invariant(
            crate::record::spec_apply_video(
                crate::record::spec_video_placeholder(),
                spec_video_failure_query(error),
            ),
        ),
{
}

pub proof fn lemma_audio_lifecycle_invariant(result: AudioResultView, error: MediaErrorView)
    ensures
        crate::record::spec_audio_invariant(crate::record::spec_audio_placeholder()),
        crate::record::spec_audio_invariant(
            crate::record::spec_apply_audio(
                crate::record::spec_audio_placeholder(),
                spec_audio_success_query(result),
            ),
        ),
        crate::record::spec_audio_invariant(
            crate::record::spec_apply_audio(
                crate::record::spec_audio_placeholder(),
                spec_audio_failure_query(error),
            ),
        ),
{
}

} // verus!
