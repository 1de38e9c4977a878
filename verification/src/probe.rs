//! Probe report model and per-kind validation.
//!
//! An external prober inspects the uploaded bytes and reports container
//! format, per-stream codec and, for images and video, pixel dimensions.
//! Validation maps that report onto a fixed allow-list per kind and decides
//! the transcode plan before any encoder is launched.

use vstd::prelude::*;

use crate::errors::MediaError;

verus! {

// ------------------------------------------------------------ probe model

#[verifier::ext_equal]
pub ghost struct FfprobeStreamView {
    pub codec_name: Seq<char>,
    pub width: Option<u64>,
    pub height: Option<u64>,
}

pub struct FfprobeStream {
    pub codec_name: String,
    pub width: Option<u64>,
    pub height: Option<u64>,
}

impl View for FfprobeStream {
    type V = FfprobeStreamView;

    open spec fn view(&self) -> FfprobeStreamView {
        FfprobeStreamView {
            codec_name: self.codec_name@,
            width: self.width,
            height: self.height,
        }
    }
}

impl DeepView for FfprobeStream {
    type V = FfprobeStreamView;

    open spec fn deep_view(&self) -> FfprobeStreamView {
        self.view()
    }
}

#[verifier::ext_equal]
pub ghost struct FfprobeTagsView {
    pub title: Option<Seq<char>>,
    pub artist: Option<Seq<char>>,
}

pub struct FfprobeTags {
    pub title: Option<String>,
    pub artist: Option<String>,
}

impl View for FfprobeTags {
    type V = FfprobeTagsView;

    open spec fn view(&self) -> FfprobeTagsView {
        FfprobeTagsView { title: self.title.deep_view(), artist: self.artist.deep_view() }
    }
}

impl DeepView for FfprobeTags {
    type V = FfprobeTagsView;

    open spec fn deep_view(&self) -> FfprobeTagsView {
        self.view()
    }
}

#[verifier::ext_equal]
pub ghost struct FfprobeFormatView {
    pub format_name: Seq<char>,
    pub nb_streams: u64,
    pub tags: Option<FfprobeTagsView>,
}

pub struct FfprobeFormat {
    pub format_name: String,
    pub nb_streams: u64,
    pub tags: Option<FfprobeTags>,
}

impl View for FfprobeFormat {
    type V = FfprobeFormatView;

    open spec fn view(&self) -> FfprobeFormatView {
        FfprobeFormatView {
            format_name: self.format_name@,
            nb_streams: self.nb_streams,
            tags: self.tags.deep_view(),
        }
    }
}

#[verifier::ext_equal]
pub ghost struct FfprobeResultView {
    pub streams: Seq<FfprobeStreamView>,
    pub format: FfprobeFormatView,
}

pub struct FfprobeResult {
    pub streams: Vec<FfprobeStream>,
    pub format: FfprobeFormat,
}

impl View for FfprobeResult {
    type V = FfprobeResultView;

    open spec fn view(&self) -> FfprobeResultView {
        FfprobeResultView { streams: self.streams.deep_view(), format: self.format@ }
    }
}

// ------------------------------------------------------------- allow-lists

/// Source container/codec families the pipeline accepts, one variant per
/// input file extension handed to the encoder.
#[derive(Clone, Copy, PartialEq, Eq, Structural, Debug)]
pub enum SourceFormat {
    Jpeg,
    Png,
    Webp,
    Mp4,
    Webm,
    Mp3,
    Flac,
    Ogg,
    M4a,
}

impl SourceFormat {
    /// File extension the encoder infers the input format from.
    pub open spec fn spec_extension(self) -> Seq<char> {
        match self {
            SourceFormat::Jpeg => "jpg"@,
            SourceFormat::Png => "png"@,
            SourceFormat::Webp => "webp"@,
            SourceFormat::Mp4 => "mp4"@,
            SourceFormat::Webm => "webm"@,
            SourceFormat::Mp3 => "mp3"@,
            SourceFormat::Flac => "flac"@,
            SourceFormat::Ogg => "ogg"@,
            SourceFormat::M4a => "m4a"@,
        }
    }

    pub fn extension(&self) -> (r: &'static str)
        ensures
            r@ == self.spec_extension(),
    {
        match self {
            SourceFormat::Jpeg => "jpg",
            SourceFormat::Png => "png",
            SourceFormat::Webp => "webp",
            SourceFormat::Mp4 => "mp4",
            SourceFormat::Webm => "webm",
            SourceFormat::Mp3 => "mp3",
            SourceFormat::Flac => "flac",
            SourceFormat::Ogg => "ogg",
            SourceFormat::M4a => "m4a",
        }
    }
}

/// Photo allow-list, keyed on the single stream's codec name.
pub open spec fn spec_photo_source(codec: Seq<char>) -> Option<SourceFormat> {
    if codec == "mjpeg"@ {
        Some(SourceFormat::Jpeg)
    } else if codec == "png"@ {
        Some(SourceFormat::Png)
    } else if codec == "webp"@ {
        Some(SourceFormat::Webp)
    } else {
        None
    }
}

/// Video allow-list, keyed on the container format name.
pub open spec fn spec_video_source(format_name: Seq<char>) -> Option<SourceFormat> {
    if format_name == "mov,mp4,m4a,3gp,3g2,mj2"@ {
        Some(SourceFormat::Mp4)
    } else if format_name == "matroska,webm"@ {
        Some(SourceFormat::Webm)
    } else {
        None
    }
}

/// Audio allow-list, keyed on the container format name.
pub open spec fn spec_audio_source(format_name: Seq<char>) -> Option<SourceFormat> {
    if format_name == "mp3"@ {
        Some(SourceFormat::Mp3)
    } else if format_name == "flac"@ {
        Some(SourceFormat::Flac)
    } else if format_name == "ogg"@ {
        Some(SourceFormat::Ogg)
    } else if format_name == "mov,mp4,m4a,3gp,3g2,mj2"@ {
        Some(SourceFormat::M4a)
    } else {
        None
    }
}

// ------------------------------------------------------------------ plans

/// Transcode plan for a photo: which variants to produce, derived from the
/// source dimensions. A variant is planned only when the source exceeds its
/// threshold, so generation never upscales.
#[derive(Clone, Copy, PartialEq, Eq, Structural, Debug)]
pub struct PhotoPlan {
    pub source: SourceFormat,
    pub width: u64,
    pub height: u64,
    pub medium: bool,
    pub large: bool,
}

/// Transcode plan for a video: one thumbnail and one 480p rendition.
#[derive(Clone, Copy, PartialEq, Eq, Structural, Debug)]
pub struct VideoPlan {
    pub source: SourceFormat,
}

/// Transcode plan for an audio: one 128k rendition, plus a cover-art
/// thumbnail when the source carries a second stream.
#[derive(Clone, Copy, PartialEq, Eq, Structural, Debug)]
pub struct AudioPlan {
    pub source: SourceFormat,
    pub cover_art: bool,
}

/// What photo validation decides for a probe report, or the rejection
/// message.
pub open spec fn spec_photo_plan(probe: FfprobeResultView) -> Result<PhotoPlan, Seq<char>> {
    if probe.format.nb_streams != 1 || probe.streams.len() == 0 {
        Err("invalid stream count"@)
    } else {
        match spec_photo_source(probe.streams[0].codec_name) {
            None => Err("unsupported codec"@),
            Some(source) => match (probe.streams[0].width, probe.streams[0].height) {
                (Some(width), Some(height)) => Ok(
                    PhotoPlan {
                        source,
                        width,
                        height,
                        medium: width > 768 || height > 768,
                        large: width > 2048 || height > 2048,
                    },
                ),
                _ => Err("cannot read dimensions"@),
            },
        }
    }
}

pub open spec fn spec_video_plan(probe: FfprobeResultView) -> Result<VideoPlan, Seq<char>> {
    if probe.format.nb_streams == 0 {
        Err("invalid stream count"@)
    } else {
        match spec_video_source(probe.format.format_name) {
            None => Err("unsupported codec"@),
            Some(source) => Ok(VideoPlan { source }),
        }
    }
}

pub open spec fn spec_audio_plan(probe: FfprobeResultView) -> Result<AudioPlan, Seq<char>> {
    if probe.format.nb_streams == 0 {
        Err("invalid stream count"@)
    } else {
        match spec_audio_source(probe.format.format_name) {
            None => Err("unsupported codec"@),
            Some(source) => Ok(AudioPlan { source, cover_art: probe.format.nb_streams == 2 }),
        }
    }
}

/// Validate a probed photo upload and decide its plan.
///
/// Rejects a report whose stream count is not exactly one, whose codec is
/// outside the photo allow-list, or whose dimensions are missing; otherwise
/// the plan records the source format and which variants to produce.
pub fn photo_plan(probe: &FfprobeResult) -> (r: Result<PhotoPlan, MediaError>)
    ensures
        match spec_photo_plan(probe@) {
            Ok(plan) => r is Ok && r->Ok_0 == plan,
            Err(msg) => r is Err && r->Err_0@.error == msg && r->Err_0@.ffmpeg_error is None,
        },
{
    if probe.format.nb_streams != 1 || probe.streams.len() == 0 {
        return Err(MediaError::from_message("invalid stream count"));
    }
    let stream = &probe.streams[0];
    let source = if crate::text::str_is(stream.codec_name.as_str(), "mjpeg") {
        SourceFormat::Jpeg
    } else if crate::text::str_is(stream.codec_name.as_str(), "png") {
        SourceFormat::Png
    } else if crate::text::str_is(stream.codec_name.as_str(), "webp") {
        SourceFormat::Webp
    } else {
        return Err(MediaError::from_message("unsupported codec"));
    };
    match (stream.width, stream.height) {
        (Some(width), Some(height)) => Ok(
            PhotoPlan {
                source,
                width,
                height,
                medium: width > 768 || height > 768,
                large: width > 2048 || height > 2048,
            },
        ),
        _ => Err(MediaError::from_message("cannot read dimensions")),
    }
}

/// Validate a probed video upload and decide its plan.
pub fn video_plan(probe: &FfprobeResult) -> (r: Result<VideoPlan, MediaError>)
    ensures
        match spec_video_plan(probe@) {
            Ok(plan) => r is Ok && r->Ok_0 == plan,
            Err(msg) => r is Err && r->Err_0@.error == msg && r->Err_0@.ffmpeg_error is None,
        },
{
    if probe.format.nb_streams == 0 {
        return Err(MediaError::from_message("invalid stream count"));
    }
    let source = if crate::text::str_is(probe.format.format_name.as_str(), "mov,mp4,m4a,3gp,3g2,mj2") {
        SourceFormat::Mp4
    } else if crate::text::str_is(probe.format.format_name.as_str(), "matroska,webm") {
        SourceFormat::Webm
    } else {
        return Err(MediaError::from_message("unsupported codec"));
    };
    Ok(VideoPlan { source })
}

/// Validate a probed audio upload and decide its plan.
pub fn audio_plan(probe: &FfprobeResult) -> (r: Result<AudioPlan, MediaError>)
    ensures
        match spec_audio_plan(probe@) {
            Ok(plan) => r is Ok && r->Ok_0 == plan,
            Err(msg) => r is Err && r->Err_0@.error == msg && r->Err_0@.ffmpeg_error is None,
        },
{
    if probe.format.nb_streams == 0 {
        return Err(MediaError::from_message("invalid stream count"));
    }
    let source = if crate::text::str_is(probe.format.format_name.as_str(), "mp3") {
        SourceFormat::Mp3
    } else if crate::text::str_is(probe.format.format_name.as_str(), "flac") {
        SourceFormat::Flac
    } else if crate::text::str_is(probe.format.format_name.as_str(), "ogg") {
        SourceFormat::Ogg
    } else if crate::text::str_is(probe.format.format_name.as_str(), "mov,mp4,m4a,3gp,3g2,mj2") {
        SourceFormat::M4a
    } else {
        return Err(MediaError::from_message("unsupported codec"));
    };
    Ok(AudioPlan { source, cover_art: probe.format.nb_streams == 2 })
}

/// Title tag carried by the probe report, if any.
pub open spec fn spec_probe_title(format: FfprobeFormatView) -> Option<Seq<char>> {
    match format.tags {
        Some(tags) => tags.title,
        None => None,
    }
}

/// Artist tag carried by the probe report, if any.
pub open spec fn spec_probe_artist(format: FfprobeFormatView) -> Option<Seq<char>> {
    match format.tags {
        Some(tags) => tags.artist,
        None => None,
    }
}

/// Extract the raw title and artist tags from a probe report.
pub fn audio_tags(probe: &FfprobeResult) -> (r: (Option<String>, Option<String>))
    ensures
        r.0.deep_view() == spec_probe_title(probe@.format),
        r.1.deep_view() == spec_probe_artist(probe@.format),
{
    match &probe.format.tags {
        Some(tags) => (
            crate::record::clone_opt_string(&tags.title),
            crate::record::clone_opt_string(&tags.artist),
        ),
        None => (None, None),
    }
}

/// Photo variant generation never upscales: a source within the medium
/// threshold plans no medium variant, and one within the large threshold
/// plans no large variant.
pub proof fn lemma_photo_plan_no_upscale(probe: FfprobeResultView)
    requires
        spec_photo_plan(probe) is Ok,
    ensures
        probe.streams[0].width->0 <= 768 && probe.streams[0].height->0 <= 768
            ==> !spec_photo_plan(probe)->Ok_0.medium,
        probe.streams[0].width->0 <= 2048 && probe.streams[0].height->0 <= 2048
            ==> !spec_photo_plan(probe)->Ok_0.large,
{
}

} // verus!
