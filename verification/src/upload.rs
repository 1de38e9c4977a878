//! Upload entry points: accept an upload kind, create the placeholder row,
//! and hand back the opaque token the client polls with.
//!
//! The transcode itself runs afterwards, in the background; these functions
//! only decide the kind, create the placeholder and encode its token.

use vstd::prelude::*;

use crate::ident::{base64_url, encode_media_id, media_id_payload, MediaType};
use crate::record::{Audio, Photo, PhotoRole, Video};
use crate::record::{spec_audio_placeholder, spec_photo_placeholder, spec_video_placeholder};
use crate::store::Store;
use crate::text::str_is;

verus! {

/// Kind named by an upload request's `type` field.
#[derive(Clone, Copy, PartialEq, Eq, Structural, Debug)]
pub enum UploadKind {
    Photo,
    ProfilePicture,
    Banner,
    Video,
    Audio,
}

/// The upload kind a request's `type` field names, if any.
pub open spec fn spec_upload_kind(s: Seq<char>) -> Option<UploadKind> {
    if s == "photo"@ {
        Some(UploadKind::Photo)
    } else if s == "profile_picture"@ {
        Some(UploadKind::ProfilePicture)
    } else if s == "banner"@ {
        Some(UploadKind::Banner)
    } else if s == "video"@ {
        Some(UploadKind::Video)
    } else if s == "audio"@ {
        Some(UploadKind::Audio)
    } else {
        None
    }
}

pub fn parse_upload_kind(s: &str) -> (r: Option<UploadKind>)
    ensures
        r == spec_upload_kind(s@),
{
    if str_is(s, "photo") {
        Some(UploadKind::Photo)
    } else if str_is(s, "profile_picture") {
        Some(UploadKind::ProfilePicture)
    } else if str_is(s, "banner") {
        Some(UploadKind::Banner)
    } else if str_is(s, "video") {
        Some(UploadKind::Video)
    } else if str_is(s, "audio") {
        Some(UploadKind::Audio)
    } else {
        None
    }
}

impl UploadKind {
    /// Role stamped on a photo record for this upload kind.
    pub open spec fn spec_photo_role(self) -> Option<PhotoRole> {
        match self {
            UploadKind::Photo => Some(PhotoRole::Plain),
            UploadKind::ProfilePicture => Some(PhotoRole::ProfilePicture),
            UploadKind::Banner => Some(PhotoRole::Banner),
            _ => None,
        }
    }

    pub fn photo_role(&self) -> (r: Option<PhotoRole>)
        ensures
            r == self.spec_photo_role(),
    {
        match self {
            UploadKind::Photo => Some(PhotoRole::Plain),
            UploadKind::ProfilePicture => Some(PhotoRole::ProfilePicture),
            UploadKind::Banner => Some(PhotoRole::Banner),
            _ => None,
        }
    }
}

/// Token kind under which a photo upload's record is retrieved.
pub open spec fn spec_role_media_type(role: PhotoRole) -> MediaType {
    match role {
        PhotoRole::Plain => MediaType::Photo,
        PhotoRole::ProfilePicture => MediaType::ProfilePicture,
        PhotoRole::Banner => MediaType::Banner,
    }
}

pub fn role_media_type(role: PhotoRole) -> (r: MediaType)
    ensures
        r == spec_role_media_type(role),
{
    match role {
        PhotoRole::Plain => MediaType::Photo,
        PhotoRole::ProfilePicture => MediaType::ProfilePicture,
        PhotoRole::Banner => MediaType::Banner,
    }
}

/// Create the placeholder photo row for an upload and encode its token
/// under the access mode the role asks for.
pub fn begin_photo_upload(photos: &mut Store<Photo>, user_id: i64, role: PhotoRole) -> (r: (
    i64,
    String,
))
    requires
        old(photos).wf(),
        old(photos).next_id_spec() < i64::MAX,
    ensures
        final(photos).wf(),
        r.0 == old(photos).next_id_spec(),
        !old(photos)@.contains_key(r.0),
        final(photos)@ == old(photos)@.insert(r.0, (user_id, spec_photo_placeholder())),
        final(photos).next_id_spec() == r.0 + 1,
        vstd::utf8::encode_utf8(r.1@) == base64_url(
            media_id_payload(spec_role_media_type(role), r.0),
        ),
{
    let id = photos.insert(user_id);
    let token = encode_media_id(role_media_type(role), id);
    (id, token)
}

/// Create the placeholder video row for an upload and encode its token.
pub fn begin_video_upload(videos: &mut Store<Video>, user_id: i64) -> (r: (i64, String))
    requires
        old(videos).wf(),
        old(videos).next_id_spec() < i64::MAX,
    ensures
        final(videos).wf(),
        r.0 == old(videos).next_id_spec(),
        !old(videos)@.contains_key(r.0),
        final(videos)@ == old(videos)@.insert(r.0, (user_id, spec_video_placeholder())),
        final(videos).next_id_spec() == r.0 + 1,
        vstd::utf8::encode_utf8(r.1@) == base64_url(media_id_payload(MediaType::Video, r.0)),
{
    let id = videos.insert(user_id);
    let token = encode_media_id(MediaType::Video, id);
    (id, token)
}

/// Create the placeholder audio row for an upload and encode its token.
pub fn begin_audio_upload(audios: &mut Store<Audio>, user_id: i64) -> (r: (i64, String))
    requires
        old(audios).wf(),
        old(audios).next_id_spec() < i64::MAX,
    ensures
        final(audios).wf(),
        r.0 == old(audios).next_id_spec(),
        !old(audios)@.contains_key(r.0),
        final(audios)@ == old(audios)@.insert(r.0, (user_id, spec_audio_placeholder())),
        final(audios).next_id_spec() == r.0 + 1,
        vstd::utf8::encode_utf8(r.1@) == base64_url(media_id_payload(MediaType::Audio, r.0)),
{
    let id = audios.insert(user_id);
    let token = encode_media_id(MediaType::Audio, id);
    (id, token)
}

} // verus!
