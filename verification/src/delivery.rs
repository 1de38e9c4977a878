//! Delivery resolver: serve the right variant of a media record.
//!
//! Given a decoded token, a requested extension and an optional resolution
//! hint, the resolver checks kind and role compatibility, picks the best
//! populated variant (exact hint match first, then the canonical order from
//! largest to smallest), and applies single-range semantics to the payload.

use vstd::prelude::*;

use crate::errors::MediaServeError;
use crate::ident::{base64_url, parse_media_id, spec_parse_payload, MediaType};
use crate::record::{
    clone_opt_string, Audio, AudioView, Photo, PhotoView, Video, VideoView,
};
use crate::store::Store;
use crate::text::{clone_bytes, str_is, string_chars};

verus! {

// ------------------------------------------------------------ status check

#[verifier::ext_equal]
pub ghost struct MediaStatusView {
    pub processing: bool,
    pub processing_error: Option<Seq<char>>,
}

/// What a status check reports for a record.
#[derive(Debug, PartialEq, Eq)]
pub struct MediaStatus {
    pub processing: bool,
    pub processing_error: Option<String>,
}

impl View for MediaStatus {
    type V = MediaStatusView;

    open spec fn view(&self) -> MediaStatusView {
        MediaStatusView {
            processing: self.processing,
            processing_error: self.processing_error.deep_view(),
        }
    }
}

pub open spec fn spec_photo_status(p: PhotoView) -> MediaStatusView {
    MediaStatusView { processing: p.processing, processing_error: p.processing_error }
}

pub open spec fn spec_video_status(v: VideoView) -> MediaStatusView {
    MediaStatusView { processing: v.processing, processing_error: v.processing_error }
}

pub open spec fn spec_audio_status(a: AudioView) -> MediaStatusView {
    MediaStatusView { processing: a.processing, processing_error: a.processing_error }
}

/// What a status check returns: the record's processing state, `NotFound`
/// for an absent id, or the decode failure.
pub open spec fn spec_check_status(
    pm: Map<i64, (i64, PhotoView)>,
    vm: Map<i64, (i64, VideoView)>,
    am: Map<i64, (i64, AudioView)>,
    parsed: Result<(MediaType, i64), MediaServeError>,
) -> Result<MediaStatusView, MediaServeError> {
    match parsed {
        Err(e) => Err(e),
        Ok((media_type, id)) => match media_type {
            MediaType::Video => if vm.contains_key(id) {
                Ok(spec_video_status(vm[id].1))
            } else {
                Err(MediaServeError::NotFound)
            },
            MediaType::Audio => if am.contains_key(id) {
                Ok(spec_audio_status(am[id].1))
            } else {
                Err(MediaServeError::NotFound)
            },
            _ => if pm.contains_key(id) {
                Ok(spec_photo_status(pm[id].1))
            } else {
                Err(MediaServeError::NotFound)
            },
        },
    }
}

pub open spec fn status_matches(
    r: Result<MediaStatus, MediaServeError>,
    s: Result<MediaStatusView, MediaServeError>,
) -> bool {
    match r {
        Ok(status) => s is Ok && status@ == s->Ok_0,
        Err(e) => s is Err && e == s->Err_0,
    }
}

/// Status check: decode the token and report the record's processing state.
pub fn check_status(
    photos: &Store<Photo>,
    videos: &Store<Video>,
    audios: &Store<Audio>,
    token: &str,
) -> (r: Result<MediaStatus, MediaServeError>)
    requires
        photos.wf(),
        videos.wf(),
        audios.wf(),
    ensures
        forall|b: Seq<u8>| vstd::utf8::encode_utf8(token@) == base64_url(b) ==> status_matches(
            r,
            spec_check_status(photos@, videos@, audios@, spec_parse_payload(b)),
        ),
        (forall|b: Seq<u8>| vstd::utf8::encode_utf8(token@) != base64_url(b)) ==> r
            == Err::<MediaStatus, MediaServeError>(MediaServeError::InvalidIdentifier),
{
    let (media_type, id) = match parse_media_id(token) {
        Ok(pair) => pair,
        Err(e) => { return Err(e) },
    };
    match media_type {
        MediaType::Video => match videos.find_row(id) {
            Some(video) => Ok(
                MediaStatus {
                    processing: video.processing,
                    processing_error: clone_opt_string(&video.processing_error),
                },
            ),
            None => Err(MediaServeError::NotFound),
        },
        MediaType::Audio => match audios.find_row(id) {
            Some(audio) => Ok(
                MediaStatus {
                    processing: audio.processing,
                    processing_error: clone_opt_string(&audio.processing_error),
                },
            ),
            None => Err(MediaServeError::NotFound),
        },
        _ => match photos.find_row(id) {
            Some(photo) => Ok(
                MediaStatus {
                    processing: photo.processing,
                    processing_error: clone_opt_string(&photo.processing_error),
                },
            ),
            None => Err(MediaServeError::NotFound),
        },
    }
}

// --------------------------------------------------------- audio metadata

#[verifier::ext_equal]
pub ghost struct MediaMetadataView {
    pub title: Option<Seq<char>>,
    pub artist: Option<Seq<char>>,
    pub thumbnail: bool,
}

/// Tag metadata reported for an audio record.
#[derive(Debug, PartialEq, Eq)]
pub struct MediaMetadata {
    pub title: Option<String>,
    pub artist: Option<String>,
    pub thumbnail: bool,
}

impl View for MediaMetadata {
    type V = MediaMetadataView;

    open spec fn view(&self) -> MediaMetadataView {
        MediaMetadataView {
            title: self.title.deep_view(),
            artist: self.artist.deep_view(),
            thumbnail: self.thumbnail,
        }
    }
}

/// What the metadata endpoint returns: tags of an audio record, a kind
/// mismatch for any other token kind, `NotFound` for an absent id.
pub open spec fn spec_audio_metadata(
    am: Map<i64, (i64, AudioView)>,
    parsed: Result<(MediaType, i64), MediaServeError>,
) -> Result<MediaMetadataView, MediaServeError> {
    match parsed {
        Err(e) => Err(e),
        Ok((media_type, id)) => if media_type != MediaType::Audio {
            Err(MediaServeError::IncompatibleMediaType)
        } else if am.contains_key(id) {
            Ok(
                MediaMetadataView {
                    title: am[id].1.title,
                    artist: am[id].1.artist,
                    thumbnail: am[id].1.thumbnail is Some,
                },
            )
        } else {
            Err(MediaServeError::NotFound)
        },
    }
}

pub open spec fn metadata_matches(
    r: Result<MediaMetadata, MediaServeError>,
    s: Result<MediaMetadataView, MediaServeError>,
) -> bool {
    match r {
        Ok(metadata) => s is Ok && metadata@ == s->Ok_0,
        Err(e) => s is Err && e == s->Err_0,
    }
}

/// Metadata for an audio token: title and artist tags and whether a
/// cover-art thumbnail exists.
pub fn audio_metadata(audios: &Store<Audio>, token: &str) -> (r: Result<
    MediaMetadata,
    MediaServeError,
>)
    requires
        audios.wf(),
    ensures
        forall|b: Seq<u8>| vstd::utf8::encode_utf8(token@) == base64_url(b) ==> metadata_matches(
            r,
            spec_audio_metadata(audios@, spec_parse_payload(b)),
        ),
        (forall|b: Seq<u8>| vstd::utf8::encode_utf8(token@) != base64_url(b)) ==> r
            == Err::<MediaMetadata, MediaServeError>(MediaServeError::InvalidIdentifier),
{
    let (media_type, id) = match parse_media_id(token) {
        Ok(pair) => pair,
        Err(e) => { return Err(e) },
    };
    match media_type {
        MediaType::Audio => {},
        _ => { return Err(MediaServeError::IncompatibleMediaType) },
    }
    match audios.find_row(id) {
        Some(audio) => Ok(
            MediaMetadata {
                title: clone_opt_string(&audio.title),
                artist: clone_opt_string(&audio.artist),
                thumbnail: audio.thumbnail.is_some(),
            },
        ),
        None => Err(MediaServeError::NotFound),
    }
}

// ------------------------------------------------------ extension and role

/// Payload family a request's extension asks for.
#[derive(Clone, Copy, PartialEq, Eq, Structural, Debug)]
pub enum ContentKind {
    Jpg,
    Mp4,
    Mp3,
}

impl ContentKind {
    pub open spec fn spec_mime(self) -> Seq<char> {
        match self {
            ContentKind::Jpg => "image/jpeg"@,
            ContentKind::Mp4 => "video/mp4"@,
            ContentKind::Mp3 => "audio/mpeg"@,
        }
    }

    pub fn mime(&self) -> (r: &'static str)
        ensures
            r@ == self.spec_mime(),
    {
        match self {
            ContentKind::Jpg => "image/jpeg",
            ContentKind::Mp4 => "video/mp4",
            ContentKind::Mp3 => "audio/mpeg",
        }
    }
}

/// Kind asked for by the first three characters of the extension; shorter
/// or unknown extensions ask for nothing.
pub open spec fn spec_ext_kind(ext: Seq<char>) -> Option<ContentKind> {
    if ext.len() < 3 {
        None
    } else if ext[0] == 'j' && ext[1] == 'p' && ext[2] == 'g' {
        Some(ContentKind::Jpg)
    } else if ext[0] == 'm' && ext[1] == 'p' && ext[2] == '4' {
        Some(ContentKind::Mp4)
    } else if ext[0] == 'm' && ext[1] == 'p' && ext[2] == '3' {
        Some(ContentKind::Mp3)
    } else {
        None
    }
}

fn ext_kind(ext: &str) -> (r: Option<ContentKind>)
    ensures
        r == spec_ext_kind(ext@),
{
    let chars = string_chars(ext);
    if chars.len() < 3 {
        None
    } else if chars[0] == 'j' && chars[1] == 'p' && chars[2] == 'g' {
        Some(ContentKind::Jpg)
    } else if chars[0] == 'm' && chars[1] == 'p' && chars[2] == '4' {
        Some(ContentKind::Mp4)
    } else if chars[0] == 'm' && chars[1] == 'p' && chars[2] == '3' {
        Some(ContentKind::Mp3)
    } else {
        None
    }
}

/// Whether a photo's role flags admit this access mode: a plain photo token
/// serves only role-less photos, a profile-picture or banner token serves
/// only a photo holding exactly that role.
pub open spec fn spec_photo_role_ok(p: PhotoView, media_type: MediaType) -> bool {
    match media_type {
        MediaType::Photo => !p.profile_picture && !p.banner,
        MediaType::ProfilePicture => p.profile_picture && !p.banner,
        MediaType::Banner => p.banner && !p.profile_picture,
        _ => false,
    }
}

/// Default resolution hint per access mode.
pub open spec fn spec_default_resolution(media_type: MediaType) -> Seq<char> {
    match media_type {
        MediaType::Audio => "128k"@,
        MediaType::Photo => "medium"@,
        MediaType::Banner => "medium"@,
        MediaType::ProfilePicture => "small"@,
        MediaType::Video => "480p"@,
    }
}

pub fn default_resolution(media_type: MediaType) -> (r: &'static str)
    ensures
        r@ == spec_default_resolution(media_type),
{
    match media_type {
        MediaType::Audio => "128k",
        MediaType::Photo => "medium",
        MediaType::Banner => "medium",
        MediaType::ProfilePicture => "small",
        MediaType::Video => "480p",
    }
}

// ------------------------------------------------------ variant selection

/// Best photo variant for a hint: an exact label match among populated
/// variants wins, otherwise the first populated in the canonical order
/// large, medium, small.
pub open spec fn spec_photo_pick(p: PhotoView, hint: Seq<char>) -> Option<(Seq<u8>, Seq<char>)> {
    if p.jpg_large is Some && hint == "large"@ {
        Some((p.jpg_large->0, "large"@))
    } else if p.jpg_medium is Some && hint == "medium"@ {
        Some((p.jpg_medium->0, "medium"@))
    } else if p.jpg_small is Some && hint == "small"@ {
        Some((p.jpg_small->0, "small"@))
    } else if p.jpg_large is Some {
        Some((p.jpg_large->0, "large"@))
    } else if p.jpg_medium is Some {
        Some((p.jpg_medium->0, "medium"@))
    } else if p.jpg_small is Some {
        Some((p.jpg_small->0, "small"@))
    } else {
        None
    }
}

/// A record that has only its smallest variant populated falls back to it
/// whatever resolution the caller hints at.
pub proof fn lemma_photo_pick_falls_back(p: PhotoView, hint: Seq<char>)
    requires
        p.jpg_large is None,
        p.jpg_medium is None,
        p.jpg_small is Some,
    ensures
        spec_photo_pick(p, hint) == Some((p.jpg_small->0, "small"@)),
{
}

fn pick_photo(photo: &Photo, hint: &str) -> (r: Option<(Vec<u8>, &'static str)>)
    ensures
        match r {
            Some(pick) => spec_photo_pick(photo@, hint@) == Some((pick.0@, pick.1@)),
            None => spec_photo_pick(photo@, hint@) is None,
        },
{
    let want_large = str_is(hint, "large");
    let want_medium = str_is(hint, "medium");
    let want_small = str_is(hint, "small");
    if photo.jpg_large.is_some() && want_large {
        Some((clone_bytes(photo.jpg_large.as_ref().unwrap()), "large"))
    } else if photo.jpg_medium.is_some() && want_medium {
        Some((clone_bytes(photo.jpg_medium.as_ref().unwrap()), "medium"))
    } else if photo.jpg_small.is_some() && want_small {
        Some((clone_bytes(photo.jpg_small.as_ref().unwrap()), "small"))
    } else if photo.jpg_large.is_some() {
        Some((clone_bytes(photo.jpg_large.as_ref().unwrap()), "large"))
    } else if photo.jpg_medium.is_some() {
        Some((clone_bytes(photo.jpg_medium.as_ref().unwrap()), "medium"))
    } else if photo.jpg_small.is_some() {
        Some((clone_bytes(photo.jpg_small.as_ref().unwrap()), "small"))
    } else {
        None
    }
}

/// The video delivery payload: the single 480p rendition, when populated.
pub open spec fn spec_video_pick(v: VideoView) -> Option<(Seq<u8>, Seq<char>)> {
    match v.mp4_480p {
        Some(bytes) => Some((bytes, "480p"@)),
        None => None,
    }
}

/// The audio delivery payload: the single 128k rendition, when populated.
pub open spec fn spec_audio_pick(a: AudioView) -> Option<(Seq<u8>, Seq<char>)> {
    match a.mp3_128k {
        Some(bytes) => Some((bytes, "128k"@)),
        None => None,
    }
}

// ---------------------------------------------------------- range requests

pub open spec fn is_digit(c: char) -> bool {
    48 <= c as u32 <= 57
}

pub open spec fn spec_digits(s: Seq<char>) -> bool {
    forall|i: int| 0 <= i < s.len() ==> is_digit(#[trigger] s[i])
}

pub open spec fn digit_val(c: char) -> int {
    c as u32 - 48
}

/// Value of a decimal digit string.
pub open spec fn spec_dec_value(s: Seq<char>) -> int
    decreases s.len(),
{
    if s.len() == 0 {
        0
    } else {
        10 * spec_dec_value(s.drop_last()) + digit_val(s.last())
    }
}

proof fn lemma_dec_value_nonneg(s: Seq<char>)
    requires
        spec_digits(s),
    ensures
        spec_dec_value(s) >= 0,
    decreases s.len(),
{
    if s.len() > 0 {
        lemma_dec_value_nonneg(s.drop_last());
    }
}

proof fn lemma_dec_value_monotonic(s: Seq<char>, k: int)
    requires
        spec_digits(s),
        0 <= k <= s.len(),
    ensures
        spec_dec_value(s) >= spec_dec_value(s.take(k)),
    decreases s.len(),
{
    if k == s.len() {
        assert(s.take(k) =~= s);
    } else {
        assert(s.drop_last().take(k) =~= s.take(k));
        lemma_dec_value_monotonic(s.drop_last(), k);
        lemma_dec_value_nonneg(s.drop_last());
    }
}

/// A parsed number: all digits, non-empty, and within the machine's word;
/// anything else parses to nothing.
pub open spec fn spec_parse_num(s: Seq<char>) -> Option<int> {
    if s.len() == 0 || !spec_digits(s) || spec_dec_value(s) > usize::MAX {
        None
    } else {
        Some(spec_dec_value(s))
    }
}

fn parse_decimal(s: &[char]) -> (r: Option<usize>)
    ensures
        match r {
            Some(v) => spec_parse_num(s@) == Some(v as int),
            None => spec_parse_num(s@) is None,
        },
{
    if s.len() == 0 {
        return None;
    }
    let mut value: usize = 0;
    let mut i: usize = 0;
    let n = s.len();
    while i < n
        invariant
            0 <= i <= n,
            n == s@.len(),
            spec_digits(s@.take(i as int)),
            value == spec_dec_value(s@.take(i as int)),
        decreases n - i,
    {
        let c = s[i];
        let code = c as u32;
        if code < 48 || code > 57 {
            return None;
        }
        let d = (code - 48) as usize;
        proof {
            assert(s@.take(i + 1).drop_last() =~= s@.take(i as int));
        }
        if value > usize::MAX / 10 || (value == usize::MAX / 10 && d > usize::MAX % 10) {
            proof {
                assert(10 * value + d > usize::MAX) by (nonlinear_arith)
                    requires
                        value > usize::MAX / 10 || (value == usize::MAX / 10 && d > usize::MAX
                            % 10),
                        usize::MAX == 10 * (usize::MAX / 10) + (usize::MAX % 10),
                        d >= 0,
                        value >= 0,
                ;
                if spec_digits(s@) {
                    lemma_dec_value_monotonic(s@, i + 1);
                }
            }
            return None;
        }
        value = value * 10 + d;
        i += 1;
    }
    proof {
        assert(s@.take(n as int) =~= s@);
    }
    Some(value)
}

pub open spec fn spec_bytes_prefix(s: Seq<char>) -> bool {
    s.len() >= 6 && s[0] == 'b' && s[1] == 'y' && s[2] == 't' && s[3] == 'e' && s[4] == 's' && s[5]
        == '='
}

/// Index of the first dash at or past `from`.
pub open spec fn spec_first_dash_from(s: Seq<char>, from: int) -> Option<int>
    decreases s.len() - from,
{
    if from < 0 || from >= s.len() {
        None
    } else if s[from] == '-' {
        Some(from)
    } else {
        spec_first_dash_from(s, from + 1)
    }
}

/// What a range header asks of a payload of this length. The bounds-checked
/// request is `start..end` with `end` exclusive; a request covering the
/// whole payload, a multi-range request, or an absent or malformed header
/// serves the full payload.
pub ghost enum RangeDecision {
    Full,
    Partial { start: int, end: int },
    Unsatisfiable,
}

pub open spec fn spec_range_decision(header: Option<Seq<char>>, len: int) -> RangeDecision {
    match header {
        None => RangeDecision::Full,
        Some(h) => {
            if h.contains(',') || !spec_bytes_prefix(h) {
                RangeDecision::Full
            } else {
                match spec_first_dash_from(h, 6) {
                    None => RangeDecision::Full,
                    Some(dash) => {
                        let start = match spec_parse_num(h.subrange(6, dash)) {
                            Some(v) => v,
                            None => 0,
                        };
                        let end = match spec_parse_num(h.subrange(dash + 1, h.len() as int)) {
                            Some(v) => v + 1,
                            None => len,
                        };
                        if !(start <= end && end <= len) {
                            RangeDecision::Unsatisfiable
                        } else if start == 0 && end == len {
                            RangeDecision::Full
                        } else {
                            RangeDecision::Partial { start, end }
                        }
                    },
                }
            }
        },
    }
}

pub open spec fn spec_opt_str(s: Option<&str>) -> Option<Seq<char>> {
    match s {
        Some(v) => Some(v@),
        None => None,
    }
}

/// Apply single-range semantics to a payload: the full payload, a slice
/// with its content-range triple `(first, last, total)`, or a refusal.
fn apply_range(body: Vec<u8>, range: Option<&str>) -> (r: Result<
    (bool, Vec<u8>, Option<(usize, usize, usize)>),
    MediaServeError,
>)
    ensures
        match spec_range_decision(spec_opt_str(range), body@.len() as int) {
            RangeDecision::Full => r == Ok::<_, MediaServeError>(
                (false, body, None::<(usize, usize, usize)>),
            ),
            RangeDecision::Partial { start, end } => r is Ok && ({
                let (partial, part, content_range) = r->Ok_0;
                &&& partial
                &&& part@ == body@.subrange(start, end)
                &&& content_range matches Some(cr) && cr.0 == start && cr.1 == end - 1 && cr.2
                    == body@.len()
            }),
            RangeDecision::Unsatisfiable => r == Err::<
                (bool, Vec<u8>, Option<(usize, usize, usize)>),
                MediaServeError,
            >(MediaServeError::RangeNotSatisfiable),
        },
{
    let header = match range {
        Some(h) => h,
        None => { return Ok((false, body, None)) },
    };
    let chars = string_chars(header);
    let n = chars.len();

    // A multi-range request is not decomposed: serve the full payload.
    let mut i: usize = 0;
    while i < n
        invariant
            0 <= i <= n,
            n == chars@.len(),
            spec_opt_str(range) == Some(chars@),
            forall|j: int| 0 <= j < i ==> chars@[j] != ',',
        decreases n - i,
    {
        if chars[i] == ',' {
            proof {
                assert(chars@.contains(','));
            }
            return Ok((false, body, None));
        }
        i += 1;
    }
    assert(!chars@.contains(','));

    if n < 6 || chars[0] != 'b' || chars[1] != 'y' || chars[2] != 't' || chars[3] != 'e'
        || chars[4] != 's' || chars[5] != '=' {
        return Ok((false, body, None));
    }

    let mut dash: usize = 6;
    while dash < n && chars[dash] != '-'
        invariant
            6 <= dash <= n,
            n == chars@.len(),
            spec_first_dash_from(chars@, 6) == spec_first_dash_from(chars@, dash as int),
        decreases n - dash,
    {
        dash += 1;
    }
    if dash >= n {
        return Ok((false, body, None));
    }

    let start = match parse_decimal(&chars.as_slice()[6..dash]) {
        Some(v) => v,
        None => 0,
    };
    let len = body.len();
    let end: usize = match parse_decimal(&chars.as_slice()[dash + 1..n]) {
        Some(v) => {
            if v >= len {
                return Err(MediaServeError::RangeNotSatisfiable);
            }
            v + 1
        },
        None => len,
    };
    if start > end {
        return Err(MediaServeError::RangeNotSatisfiable);
    }
    if start == 0 && end == len {
        return Ok((false, body, None));
    }
    let part = vstd::slice::slice_to_vec(&body.as_slice()[start..end]);
    Ok((true, part, Some((start, end - 1, len))))
}

// ----------------------------------------------------------------- deliver

#[verifier::ext_equal]
pub ghost struct DeliveryView {
    pub partial: bool,
    pub body: Seq<u8>,
    pub content_type: Seq<char>,
    pub resolution_label: Seq<char>,
    pub content_range: Option<(int, int, int)>,
}

/// A resolved delivery: the payload, whether it is a partial response, and
/// the response metadata the transport layer needs.
#[derive(Debug, PartialEq, Eq)]
pub struct Delivery {
    pub partial: bool,
    pub body: Vec<u8>,
    pub content_type: &'static str,
    pub resolution_label: &'static str,
    pub content_range: Option<(usize, usize, usize)>,
}

impl View for Delivery {
    type V = DeliveryView;

    open spec fn view(&self) -> DeliveryView {
        DeliveryView {
            partial: self.partial,
            body: self.body@,
            content_type: self.content_type@,
            resolution_label: self.resolution_label@,
            content_range: match self.content_range {
                Some((a, b, c)) => Some((a as int, b as int, c as int)),
                None => None,
            },
        }
    }
}

/// The variant delivery serves before range handling, or the error.
pub open spec fn spec_deliver_pick(
    pm: Map<i64, (i64, PhotoView)>,
    vm: Map<i64, (i64, VideoView)>,
    am: Map<i64, (i64, AudioView)>,
    media_type: MediaType,
    id: i64,
    kind: ContentKind,
    hint: Seq<char>,
) -> Result<(Seq<u8>, Seq<char>), MediaServeError> {
    match kind {
        ContentKind::Jpg => match media_type {
            MediaType::Audio => if !am.contains_key(id) {
                Err(MediaServeError::NotFound)
            } else if am[id].1.processing || am[id].1.thumbnail is None {
                Err(MediaServeError::StillProcessing)
            } else {
                Ok((am[id].1.thumbnail->0, "thumbnail"@))
            },
            MediaType::Video => if !vm.contains_key(id) {
                Err(MediaServeError::NotFound)
            } else if vm[id].1.processing {
                Err(MediaServeError::StillProcessing)
            } else {
                match vm[id].1.thumbnail {
                    Some(bytes) => Ok((bytes, "thumbnail"@)),
                    None => Err(MediaServeError::StillProcessing),
                }
            },
            _ => if !pm.contains_key(id) {
                Err(MediaServeError::NotFound)
            } else if pm[id].1.processing {
                Err(MediaServeError::StillProcessing)
            } else if !spec_photo_role_ok(pm[id].1, media_type) {
                Err(MediaServeError::IncompatibleMediaType)
            } else {
                match spec_photo_pick(pm[id].1, hint) {
                    Some(pick) => Ok(pick),
                    None => Err(MediaServeError::StillProcessing),
                }
            },
        },
        ContentKind::Mp4 => if media_type != MediaType::Video {
            Err(MediaServeError::IncompatibleMediaType)
        } else if !vm.contains_key(id) {
            Err(MediaServeError::NotFound)
        } else if vm[id].1.processing {
            Err(MediaServeError::StillProcessing)
        } else {
            match spec_video_pick(vm[id].1) {
                Some(pick) => Ok(pick),
                None => Err(MediaServeError::StillProcessing),
            }
        },
        ContentKind::Mp3 => if media_type != MediaType::Audio {
            Err(MediaServeError::IncompatibleMediaType)
        } else if !am.contains_key(id) {
            Err(MediaServeError::NotFound)
        } else if am[id].1.processing {
            Err(MediaServeError::StillProcessing)
        } else {
            match spec_audio_pick(am[id].1) {
                Some(pick) => Ok(pick),
                None => Err(MediaServeError::StillProcessing),
            }
        },
    }
}

/// The full resolver decision for a decoded token, extension, hint and
/// range header.
pub open spec fn spec_deliver(
    pm: Map<i64, (i64, PhotoView)>,
    vm: Map<i64, (i64, VideoView)>,
    am: Map<i64, (i64, AudioView)>,
    parsed: Result<(MediaType, i64), MediaServeError>,
    ext: Seq<char>,
    hint: Option<Seq<char>>,
    range: Option<Seq<char>>,
) -> Result<DeliveryView, MediaServeError> {
    match parsed {
        Err(e) => Err(e),
        Ok((media_type, id)) => match spec_ext_kind(ext) {
            None => Err(MediaServeError::IncompatibleMediaType),
            Some(kind) => {
                let hint_eff = match hint {
                    Some(h) => h,
                    None => spec_default_resolution(media_type),
                };
                match spec_deliver_pick(pm, vm, am, media_type, id, kind, hint_eff) {
                    Err(e) => Err(e),
                    Ok((body, label)) => match spec_range_decision(range, body.len() as int) {
                        RangeDecision::Unsatisfiable => Err(MediaServeError::RangeNotSatisfiable),
                        RangeDecision::Full => Ok(
                            DeliveryView {
                                partial: false,
                                body,
                                content_type: kind.spec_mime(),
                                resolution_label: label,
                                content_range: None,
                            },
                        ),
                        RangeDecision::Partial { start, end } => Ok(
                            DeliveryView {
                                partial: true,
                                body: body.subrange(start, end),
                                content_type: kind.spec_mime(),
                                resolution_label: label,
                                content_range: Some((start, end - 1, body.len() as int)),
                            },
                        ),
                    },
                }
            },
        },
    }
}

pub open spec fn delivery_matches(
    r: Result<Delivery, MediaServeError>,
    s: Result<DeliveryView, MediaServeError>,
) -> bool {
    match r {
        Ok(d) => s is Ok && d@ == s->Ok_0,
        Err(e) => s is Err && e == s->Err_0,
    }
}

fn deliver_parsed(
    photos: &Store<Photo>,
    videos: &Store<Video>,
    audios: &Store<Audio>,
    media_type: MediaType,
    id: i64,
    ext: &str,
    resolution: Option<&str>,
    range: Option<&str>,
) -> (r: Result<Delivery, MediaServeError>)
    requires
        photos.wf(),
        videos.wf(),
        audios.wf(),
    ensures
        delivery_matches(
            r,
            spec_deliver(
                photos@,
                videos@,
                audios@,
                Ok((media_type, id)),
                ext@,
                spec_opt_str(resolution),
                spec_opt_str(range),
            ),
        ),
{
    let kind = match ext_kind(ext) {
        Some(k) => k,
        None => { return Err(MediaServeError::IncompatibleMediaType) },
    };
    let hint: &str = match resolution {
        Some(h) => h,
        None => default_resolution(media_type),
    };
    let picked: (Vec<u8>, &'static str) = match kind {
        ContentKind::Jpg => match media_type {
            MediaType::Audio => match audios.find_row(id) {
                None => { return Err(MediaServeError::NotFound) },
                Some(audio) => {
                    if audio.processing || audio.thumbnail.is_none() {
                        return Err(MediaServeError::StillProcessing);
                    }
                    let pick = (clone_bytes(audio.thumbnail.as_ref().unwrap()), "thumbnail");
                    proof {
                        assert(spec_deliver_pick(
                            photos@, videos@, audios@, media_type, id, kind, hint@,
                        ) == Ok::<(Seq<u8>, Seq<char>), MediaServeError>((pick.0@, pick.1@)));
                    }
                    pick
                },
            },
            MediaType::Video => match videos.find_row(id) {
                None => { return Err(MediaServeError::NotFound) },
                Some(video) => {
                    if video.processing {
                        return Err(MediaServeError::StillProcessing);
                    }
                    match &video.thumbnail {
                        Some(bytes) => (clone_bytes(bytes), "thumbnail"),
                        None => { return Err(MediaServeError::StillProcessing) },
                    }
                },
            },
            _ => match photos.find_row(id) {
                None => { return Err(MediaServeError::NotFound) },
                Some(photo) => {
                    if photo.processing {
                        return Err(MediaServeError::StillProcessing);
                    }
                    let role_ok = match media_type {
                        MediaType::Photo => !photo.profile_picture && !photo.banner,
                        MediaType::ProfilePicture => photo.profile_picture && !photo.banner,
                        MediaType::Banner => photo.banner && !photo.profile_picture,
                        _ => false,
                    };
                    if !role_ok {
                        return Err(MediaServeError::IncompatibleMediaType);
                    }
                    let pick = match pick_photo(photo, hint) {
                        Some(pick) => pick,
                        None => { return Err(MediaServeError::StillProcessing) },
                    };
                    proof {
                        assert(spec_deliver_pick(
                            photos@, videos@, audios@, media_type, id, kind, hint@,
                        ) == Ok::<(Seq<u8>, Seq<char>), MediaServeError>((pick.0@, pick.1@)));
                    }
                    pick
                },
            },
        },
        ContentKind::Mp4 => {
            match media_type {
                MediaType::Video => {},
                _ => { return Err(MediaServeError::IncompatibleMediaType) },
            }
            match videos.find_row(id) {
                None => { return Err(MediaServeError::NotFound) },
                Some(video) => {
                    if video.processing {
                        return Err(MediaServeError::StillProcessing);
                    }
                    let pick = match &video.mp4_480p {
                        Some(bytes) => (clone_bytes(bytes), "480p"),
                        None => { return Err(MediaServeError::StillProcessing) },
                    };
                    proof {
                        assert(spec_deliver_pick(
                            photos@, videos@, audios@, media_type, id, kind, hint@,
                        ) == Ok::<(Seq<u8>, Seq<char>), MediaServeError>((pick.0@, pick.1@)));
                    }
                    pick
                },
            }
        },
        ContentKind::Mp3 => {
            match media_type {
                MediaType::Audio => {},
                _ => { return Err(MediaServeError::IncompatibleMediaType) },
            }
            match audios.find_row(id) {
                None => { return Err(MediaServeError::NotFound) },
                Some(audio) => {
                    if audio.processing {
                        return Err(MediaServeError::StillProcessing);
                    }
                    let pick = match &audio.mp3_128k {
                        Some(bytes) => (clone_bytes(bytes), "128k"),
                        None => { return Err(MediaServeError::StillProcessing) },
                    };
                    proof {
                        assert(spec_deliver_pick(
                            photos@, videos@, audios@, media_type, id, kind, hint@,
                        ) == Ok::<(Seq<u8>, Seq<char>), MediaServeError>((pick.0@, pick.1@)));
                    }
                    pick
                },
            }
        },
    };
    let (body, label) = picked;
    proof {
        assert(hint@ == (match spec_opt_str(resolution) {
            Some(h) => h,
            None => spec_default_resolution(media_type),
        }));
        assert(spec_deliver_pick(photos@, videos@, audios@, media_type, id, kind, hint@)
            == Ok::<(Seq<u8>, Seq<char>), MediaServeError>((body@, label@)));
    }
    let ghost body_view = body@;
    let (partial, part, content_range) = match apply_range(body, range) {
        Ok(v) => v,
        Err(e) => { return Err(e) },
    };
    let delivery = Delivery {
        partial,
        body: part,
        content_type: kind.mime(),
        resolution_label: label,
        content_range,
    };
    proof {
        let s = spec_deliver(
            photos@,
            videos@,
            audios@,
            Ok((media_type, id)),
            ext@,
            spec_opt_str(resolution),
            spec_opt_str(range),
        );
        assert(s is Ok);
        assert(delivery@ =~= s->Ok_0);
    }
    Ok(delivery)
}

/// Serve a media request: decode the token, check kind and role
/// compatibility, pick the best populated variant for the hint, and apply
/// single-range semantics.
pub fn deliver(
    photos: &Store<Photo>,
    videos: &Store<Video>,
    audios: &Store<Audio>,
    token: &str,
    ext: &str,
    resolution: Option<&str>,
    range: Option<&str>,
) -> (r: Result<Delivery, MediaServeError>)
    requires
        photos.wf(),
        videos.wf(),
        audios.wf(),
    ensures
        forall|b: Seq<u8>| vstd::utf8::encode_utf8(token@) == base64_url(b) ==> delivery_matches(
            r,
            spec_deliver(
                photos@,
                videos@,
                audios@,
                spec_parse_payload(b),
                ext@,
                spec_opt_str(resolution),
                spec_opt_str(range),
            ),
        ),
        (forall|b: Seq<u8>| vstd::utf8::encode_utf8(token@) != base64_url(b)) ==> r
            == Err::<Delivery, MediaServeError>(MediaServeError::InvalidIdentifier),
{
    let (media_type, id) = match parse_media_id(token) {
        Ok(pair) => pair,
        Err(e) => { return Err(e) },
    };
    deliver_parsed(photos, videos, audios, media_type, id, ext, resolution, range)
}

// ------------------------------------------------------------------- laws

/// Decimal digit characters of a number, most significant first.
pub open spec fn spec_dec_digits(n: nat) -> Seq<char>
    decreases n,
{
    if n < 10 {
        seq![digit_char(n as int)]
    } else {
        spec_dec_digits(n / 10) + seq![digit_char((n % 10) as int)]
    }
}

/// Character for one decimal digit.
pub open spec fn digit_char(d: int) -> char {
    if d == 0 {
        '0'
    } else if d == 1 {
        '1'
    } else if d == 2 {
        '2'
    } else if d == 3 {
        '3'
    } else if d == 4 {
        '4'
    } else if d == 5 {
        '5'
    } else if d == 6 {
        '6'
    } else if d == 7 {
        '7'
    } else if d == 8 {
        '8'
    } else {
        '9'
    }
}

fn push_digit(chars: &mut Vec<char>, d: u64)
    requires
        d < 10,
    ensures
        final(chars)@ == old(chars)@ + seq![digit_char(d as int)],
{
    let c = match d {
        0 => '0',
        1 => '1',
        2 => '2',
        3 => '3',
        4 => '4',
        5 => '5',
        6 => '6',
        7 => '7',
        8 => '8',
        _ => '9',
    };
    chars.push(c);
}

fn push_decimal(chars: &mut Vec<char>, n: u64)
    ensures
        final(chars)@ == old(chars)@ + spec_dec_digits(n as nat),
    decreases n,
{
    if n < 10 {
        push_digit(chars, n);
    } else {
        proof {
            assert(n / 10 < n) by (nonlinear_arith)
                requires
                    n >= 10,
            ;
        }
        push_decimal(chars, n / 10);
        push_digit(chars, n % 10);
        proof {
            assert(chars@ =~= old(chars)@ + spec_dec_digits(n as nat));
        }
    }
}

/// The content-range header value of a partial response, from the
/// inclusive first and last byte positions and the payload's total length:
/// `bytes <first>-<last>/<total>`.
pub fn content_range_value(first: usize, last: usize, total: usize) -> (r: String)
    ensures
        r@ == "bytes "@ + spec_dec_digits(first as nat) + seq!['-']
            + spec_dec_digits(last as nat) + seq!['/'] + spec_dec_digits(total as nat),
{
    let mut chars: Vec<char> = Vec::new();
    chars.push('b');
    chars.push('y');
    chars.push('t');
    chars.push('e');
    chars.push('s');
    chars.push(' ');
    proof {
        reveal_strlit("bytes ");
        assert(chars@ =~= "bytes "@);
    }
    push_decimal(&mut chars, first as u64);
    chars.push('-');
    push_decimal(&mut chars, last as u64);
    chars.push('/');
    push_decimal(&mut chars, total as u64);
    crate::text::chars_to_string(&chars)
}

/// File name advertised for a delivered payload, as it appears in the
/// response's content disposition: `<token>_<label>.<extension>`.
pub fn delivery_filename(token: &str, label: &str, extension: &str) -> (r: String)
    ensures
        r@ == token@ + "_"@ + label@ + "."@ + extension@,
{
    let mut chars = string_chars(token);
    chars.push('_');
    let mut rest = string_chars(label);
    chars.append(&mut rest);
    chars.push('.');
    let mut rest = string_chars(extension);
    chars.append(&mut rest);
    proof {
        reveal_strlit("_");
        reveal_strlit(".");
        assert(chars@ =~= token@ + "_"@ + label@ + "."@ + extension@);
    }
    crate::text::chars_to_string(&chars)
}

/// A newly inserted photo row is observable through a status check as
/// processing, with no error and no populated variant.
pub proof fn lemma_new_photo_observable(
    pm: Map<i64, (i64, PhotoView)>,
    vm: Map<i64, (i64, VideoView)>,
    am: Map<i64, (i64, AudioView)>,
    id: i64,
    owner: i64,
)
    ensures
        ({
            let after = pm.insert(id, (owner, crate::record::spec_photo_placeholder()));
            let status = spec_check_status(after, vm, am, Ok((MediaType::Photo, id)));
            &&& status == Ok::<MediaStatusView, MediaServeError>(
                MediaStatusView { processing: true, processing_error: None },
            )
            &&& after[id].1.jpg_small is None
            &&& after[id].1.jpg_medium is None
            &&& after[id].1.jpg_large is None
        }),
{
}

/// A newly inserted video row is observable as processing with no variant.
pub proof fn lemma_new_video_observable(
    pm: Map<i64, (i64, PhotoView)>,
    vm: Map<i64, (i64, VideoView)>,
    am: Map<i64, (i64, AudioView)>,
    id: i64,
    owner: i64,
)
    ensures
        ({
            let after = vm.insert(id, (owner, crate::record::spec_video_placeholder()));
            let status = spec_check_status(pm, after, am, Ok((MediaType::Video, id)));
            &&& status == Ok::<MediaStatusView, MediaServeError>(
                MediaStatusView { processing: true, processing_error: None },
            )
            &&& after[id].1.thumbnail is None
            &&& after[id].1.mp4_480p is None
        }),
{
}

/// A newly inserted audio row is observable as processing with no variant.
pub proof fn lemma_new_audio_observable(
    pm: Map<i64, (i64, PhotoView)>,
    vm: Map<i64, (i64, VideoView)>,
    am: Map<i64, (i64, AudioView)>,
    id: i64,
    owner: i64,
)
    ensures
        ({
            let after = am.insert(id, (owner, crate::record::spec_audio_placeholder()));
            let status = spec_check_status(pm, vm, after, Ok((MediaType::Audio, id)));
            &&& status == Ok::<MediaStatusView, MediaServeError>(
                MediaStatusView { processing: true, processing_error: None },
            )
            &&& after[id].1.thumbnail is None
            &&& after[id].1.mp3_128k is None
        }),
{
}

/// Once a record is deleted — as the pipeline's cleanup does after the
/// grace window — no request reaches it again.
pub proof fn lemma_removed_record_unreachable<V>(m: Map<i64, (i64, V)>, id: i64)
    ensures
        !m.remove(id).contains_key(id),
{
}

/// A profile-picture or banner access mode serves only a photo stamped
/// with exactly that role; any mismatch is a kind error.
pub proof fn lemma_role_mismatch_rejected(
    pm: Map<i64, (i64, PhotoView)>,
    vm: Map<i64, (i64, VideoView)>,
    am: Map<i64, (i64, AudioView)>,
    id: i64,
    hint: Seq<char>,
)
    requires
        pm.contains_key(id),
        !pm[id].1.processing,
        pm[id].1.banner,
    ensures
        spec_deliver_pick(pm, vm, am, MediaType::ProfilePicture, id, ContentKind::Jpg, hint)
            == Err::<(Seq<u8>, Seq<char>), MediaServeError>(MediaServeError::IncompatibleMediaType),
{
}

} // verus!
