//! Persisted media records, one struct per kind, and their sparse patches.
//!
//! A patch (`*UpdateQuery`) carries an `Option` per field and touches only
//! the fields that are present, mirroring a sparse single-row update.

use vstd::prelude::*;

use crate::store::Store;

verus! {

/// View of an optional blob: the bytes it holds, if any.
pub open spec fn spec_opt_bytes(v: Option<Vec<u8>>) -> Option<Seq<u8>> {
    match v {
        Some(bytes) => Some(bytes@),
        None => None,
    }
}

// ---------------------------------------------------------------- photos

/// Role a photo upload asks for; fixed at upload time.
#[derive(Clone, Copy, PartialEq, Eq, Structural, Debug)]
pub enum PhotoRole {
    Plain,
    ProfilePicture,
    Banner,
}

/// Mathematical image of a photo record.
#[verifier::ext_equal]
pub ghost struct PhotoView {
    pub processing: bool,
    pub processing_error: Option<Seq<char>>,
    pub profile_picture: bool,
    pub banner: bool,
    pub jpg_small: Option<Seq<u8>>,
    pub jpg_medium: Option<Seq<u8>>,
    pub jpg_large: Option<Seq<u8>>,
}

pub struct Photo {
    pub processing: bool,
    pub processing_error: Option<String>,
    pub profile_picture: bool,
    pub banner: bool,
    pub jpg_small: Option<Vec<u8>>,
    pub jpg_medium: Option<Vec<u8>>,
    pub jpg_large: Option<Vec<u8>>,
}

impl View for Photo {
    type V = PhotoView;

    open spec fn view(&self) -> PhotoView {
        PhotoView {
            processing: self.processing,
            processing_error: self.processing_error.deep_view(),
            profile_picture: self.profile_picture,
            banner: self.banner,
            jpg_small: spec_opt_bytes(self.jpg_small),
            jpg_medium: spec_opt_bytes(self.jpg_medium),
            jpg_large: spec_opt_bytes(self.jpg_large),
        }
    }
}

#[verifier::ext_equal]
pub ghost struct PhotoUpdateQueryView {
    pub processing: Option<bool>,
    pub processing_error: Option<Seq<char>>,
    pub profile_picture: Option<bool>,
    pub banner: Option<bool>,
    pub jpg_small: Option<Seq<u8>>,
    pub jpg_medium: Option<Seq<u8>>,
    pub jpg_large: Option<Seq<u8>>,
}

pub struct PhotoUpdateQuery {
    pub processing: Option<bool>,
    pub processing_error: Option<String>,
    pub profile_picture: Option<bool>,
    pub banner: Option<bool>,
    pub jpg_small: Option<Vec<u8>>,
    pub jpg_medium: Option<Vec<u8>>,
    pub jpg_large: Option<Vec<u8>>,
}

impl View for PhotoUpdateQuery {
    type V = PhotoUpdateQueryView;

    open spec fn view(&self) -> PhotoUpdateQueryView {
        PhotoUpdateQueryView {
            processing: self.processing,
            processing_error: self.processing_error.deep_view(),
            profile_picture: self.profile_picture,
            banner: self.banner,
            jpg_small: spec_opt_bytes(self.jpg_small),
            jpg_medium: spec_opt_bytes(self.jpg_medium),
            jpg_large: spec_opt_bytes(self.jpg_large),
        }
    }
}

/// The record a sparse patch leaves behind: fields present in the patch are
/// overwritten, absent fields keep their stored value.
pub open spec fn spec_apply_photo(record: PhotoView, query: PhotoUpdateQueryView) -> PhotoView {
    PhotoView {
        processing: match query.processing {
            Some(v) => v,
            None => record.processing,
        },
        processing_error: match query.processing_error {
            Some(v) => Some(v),
            None => record.processing_error,
        },
        profile_picture: match query.profile_picture {
            Some(v) => v,
            None => record.profile_picture,
        },
        banner: match query.banner {
            Some(v) => v,
            None => record.banner,
        },
        jpg_small: match query.jpg_small {
            Some(v) => Some(v),
            None => record.jpg_small,
        },
        jpg_medium: match query.jpg_medium {
            Some(v) => Some(v),
            None => record.jpg_medium,
        },
        jpg_large: match query.jpg_large {
            Some(v) => Some(v),
            None => record.jpg_large,
        },
    }
}

/// State of a photo row as created at upload time.
pub open spec fn spec_photo_placeholder() -> PhotoView {
    PhotoView {
        processing: true,
        processing_error: None,
        profile_picture: false,
        banner: false,
        jpg_small: None,
        jpg_medium: None,
        jpg_large: None,
    }
}

impl Photo {
    /// Fresh placeholder row: processing, no error, no role, no variants.
    pub fn placeholder() -> (r: Photo)
        ensures
            r@ == spec_photo_placeholder(),
    {
        Photo {
            processing: true,
            processing_error: None,
            profile_picture: false,
            banner: false,
            jpg_small: None,
            jpg_medium: None,
            jpg_large: None,
        }
    }
}

impl PhotoUpdateQuery {
    /// A patch that touches nothing.
    pub fn empty() -> (r: PhotoUpdateQuery)
        ensures
            r@ == (PhotoUpdateQueryView {
                processing: None,
                processing_error: None,
                profile_picture: None,
                banner: None,
                jpg_small: None,
                jpg_medium: None,
                jpg_large: None,
            }),
    {
        PhotoUpdateQuery {
            processing: None,
            processing_error: None,
            profile_picture: None,
            banner: None,
            jpg_small: None,
            jpg_medium: None,
            jpg_large: None,
        }
    }

    /// Apply this patch to a stored record, producing the patched record.
    pub fn apply(self, record: &Photo) -> (r: Photo)
        ensures
            r@ == spec_apply_photo(record@, self@),
    {
        let r = Photo {
            processing: match self.processing {
                Some(v) => v,
                None => record.processing,
            },
            processing_error: match self.processing_error {
                Some(v) => Some(v),
                None => clone_opt_string(&record.processing_error),
            },
            profile_picture: match self.profile_picture {
                Some(v) => v,
                None => record.profile_picture,
            },
            banner: match self.banner {
                Some(v) => v,
                None => record.banner,
            },
            jpg_small: match self.jpg_small {
                Some(v) => Some(v),
                None => clone_opt_bytes(&record.jpg_small),
            },
            jpg_medium: match self.jpg_medium {
                Some(v) => Some(v),
                None => clone_opt_bytes(&record.jpg_medium),
            },
            jpg_large: match self.jpg_large {
                Some(v) => Some(v),
                None => clone_opt_bytes(&record.jpg_large),
            },
        };
        proof {
            assert(r@ =~= spec_apply_photo(record@, self@));
        }
        r
    }
}

impl Store<Photo> {
    /// Create a placeholder photo row owned by `user_id` and return its id.
    pub fn insert(&mut self, user_id: i64) -> (id: i64)
        requires
            old(self).wf(),
            old(self).next_id_spec() < i64::MAX,
        ensures
            final(self).wf(),
            id == old(self).next_id_spec(),
            !old(self)@.contains_key(id),
            final(self)@ == old(self)@.insert(id, (user_id, spec_photo_placeholder())),
            final(self).next_id_spec() == id + 1,
    {
        self.insert_row(user_id, Photo::placeholder())
    }

    /// Apply a sparse patch to the row with this id; never creates a row.
    pub fn update(&mut self, id: i64, query: PhotoUpdateQuery) -> (found: bool)
        requires
            old(self).wf(),
        ensures
            final(self).wf(),
            final(self).next_id_spec() == old(self).next_id_spec(),
            found <==> old(self)@.contains_key(id),
            found ==> final(self)@ == old(self)@.insert(
                id,
                (old(self)@[id].0, spec_apply_photo(old(self)@[id].1, query@)),
            ),
            !found ==> final(self)@ == old(self)@,
    {
        let patched = match self.find_row(id) {
            Some(record) => query.apply(record),
            None => { return false },
        };
        self.replace_row(id, patched)
    }
}

// ---------------------------------------------------------------- videos

/// Mathematical image of a video record.
#[verifier::ext_equal]
pub ghost struct VideoView {
    pub processing: bool,
    pub processing_error: Option<Seq<char>>,
    pub thumbnail: Option<Seq<u8>>,
    pub mp4_480p: Option<Seq<u8>>,
}

pub struct Video {
    pub processing: bool,
    pub processing_error: Option<String>,
    pub thumbnail: Option<Vec<u8>>,
    pub mp4_480p: Option<Vec<u8>>,
}

impl View for Video {
    type V = VideoView;

    open spec fn view(&self) -> VideoView {
        VideoView {
            processing: self.processing,
            processing_error: self.processing_error.deep_view(),
            thumbnail: spec_opt_bytes(self.thumbnail),
            mp4_480p: spec_opt_bytes(self.mp4_480p),
        }
    }
}

#[verifier::ext_equal]
pub ghost struct VideoUpdateQueryView {
    pub processing: Option<bool>,
    pub processing_error: Option<Seq<char>>,
    pub thumbnail: Option<Seq<u8>>,
    pub mp4_480p: Option<Seq<u8>>,
}

pub struct VideoUpdateQuery {
    pub processing: Option<bool>,
    pub processing_error: Option<String>,
    pub thumbnail: Option<Vec<u8>>,
    pub mp4_480p: Option<Vec<u8>>,
}

impl View for VideoUpdateQuery {
    type V = VideoUpdateQueryView;

    open spec fn view(&self) -> VideoUpdateQueryView {
        VideoUpdateQueryView {
            processing: self.processing,
            processing_error: self.processing_error.deep_view(),
            thumbnail: spec_opt_bytes(self.thumbnail),
            mp4_480p: spec_opt_bytes(self.mp4_480p),
        }
    }
}

pub open spec fn spec_apply_video(record: VideoView, query: VideoUpdateQueryView) -> VideoView {
    VideoView {
        processing: match query.processing {
            Some(v) => v,
            None => record.processing,
        },
        processing_error: match query.processing_error {
            Some(v) => Some(v),
            None => record.processing_error,
        },
        thumbnail: match query.thumbnail {
            Some(v) => Some(v),
            None => record.thumbnail,
        },
        mp4_480p: match query.mp4_480p {
            Some(v) => Some(v),
            None => record.mp4_480p,
        },
    }
}

pub open spec fn spec_video_placeholder() -> VideoView {
    VideoView { processing: true, processing_error: None, thumbnail: None, mp4_480p: None }
}

impl Video {
    pub fn placeholder() -> (r: Video)
        ensures
            r@ == spec_video_placeholder(),
    {
        Video { processing: true, processing_error: None, thumbnail: None, mp4_480p: None }
    }
}

impl VideoUpdateQuery {
    pub fn empty() -> (r: VideoUpdateQuery)
        ensures
            r@ == (VideoUpdateQueryView {
                processing: None,
                processing_error: None,
                thumbnail: None,
                mp4_480p: None,
            }),
    {
        VideoUpdateQuery { processing: None, processing_error: None, thumbnail: None, mp4_480p: None }
    }

    pub fn apply(self, record: &Video) -> (r: Video)
        ensures
            r@ == spec_apply_video(record@, self@),
    {
        let r = Video {
            processing: match self.processing {
                Some(v) => v,
                None => record.processing,
            },
            processing_error: match self.processing_error {
                Some(v) => Some(v),
                None => clone_opt_string(&record.processing_error),
            },
            thumbnail: match self.thumbnail {
                Some(v) => Some(v),
                None => clone_opt_bytes(&record.thumbnail),
            },
            mp4_480p: match self.mp4_480p {
                Some(v) => Some(v),
                None => clone_opt_bytes(&record.mp4_480p),
            },
        };
        proof {
            assert(r@ =~= spec_apply_video(record@, self@));
        }
        r
    }
}

impl Store<Video> {
    pub fn insert(&mut self, user_id: i64) -> (id: i64)
        requires
            old(self).wf(),
            old(self).next_id_spec() < i64::MAX,
        ensures
            final(self).wf(),
            id == old(self).next_id_spec(),
            !old(self)@.contains_key(id),
            final(self)@ == old(self)@.insert(id, (user_id, spec_video_placeholder())),
            final(self).next_id_spec() == id + 1,
    {
        self.insert_row(user_id, Video::placeholder())
    }

    pub fn update(&mut self, id: i64, query: VideoUpdateQuery) -> (found: bool)
        requires
            old(self).wf(),
        ensures
            final(self).wf(),
            final(self).next_id_spec() == old(self).next_id_spec(),
            found <==> old(self)@.contains_key(id),
            found ==> final(self)@ == old(self)@.insert(
                id,
                (old(self)@[id].0, spec_apply_video(old(self)@[id].1, query@)),
            ),
            !found ==> final(self)@ == old(self)@,
    {
        let patched = match self.find_row(id) {
            Some(record) => query.apply(record),
            None => { return false },
        };
        self.replace_row(id, patched)
    }
}

// ---------------------------------------------------------------- audios

/// Mathematical image of an audio record.
#[verifier::ext_equal]
pub ghost struct AudioView {
    pub processing: bool,
    pub processing_error: Option<Seq<char>>,
    pub title: Option<Seq<char>>,
    pub artist: Option<Seq<char>>,
    pub thumbnail: Option<Seq<u8>>,
    pub mp3_128k: Option<Seq<u8>>,
}

pub struct Audio {
    pub processing: bool,
    pub processing_error: Option<String>,
    pub title: Option<String>,
    pub artist: Option<String>,
    pub thumbnail: Option<Vec<u8>>,
    pub mp3_128k: Option<Vec<u8>>,
}

impl View for Audio {
    type V = AudioView;

    open spec fn view(&self) -> AudioView {
        AudioView {
            processing: self.processing,
            processing_error: self.processing_error.deep_view(),
            title: self.title.deep_view(),
            artist: self.artist.deep_view(),
            thumbnail: spec_opt_bytes(self.thumbnail),
            mp3_128k: spec_opt_bytes(self.mp3_128k),
        }
    }
}

#[verifier::ext_equal]
pub ghost struct AudioUpdateQueryView {
    pub processing: Option<bool>,
    pub processing_error: Option<Seq<char>>,
    pub title: Option<Seq<char>>,
    pub artist: Option<Seq<char>>,
    pub thumbnail: Option<Seq<u8>>,
    pub mp3_128k: Option<Seq<u8>>,
}

pub struct AudioUpdateQuery {
    pub processing: Option<bool>,
    pub processing_error: Option<String>,
    pub title: Option<String>,
    pub artist: Option<String>,
    pub thumbnail: Option<Vec<u8>>,
    pub mp3_128k: Option<Vec<u8>>,
}

impl View for AudioUpdateQuery {
    type V = AudioUpdateQueryView;

    open spec fn view(&self) -> AudioUpdateQueryView {
        AudioUpdateQueryView {
            processing: self.processing,
            processing_error: self.processing_error.deep_view(),
            title: self.title.deep_view(),
            artist: self.artist.deep_view(),
            thumbnail: spec_opt_bytes(self.thumbnail),
            mp3_128k: spec_opt_bytes(self.mp3_128k),
        }
    }
}

pub open spec fn spec_apply_audio(record: AudioView, query: AudioUpdateQueryView) -> AudioView {
    AudioView {
        processing: match query.processing {
            Some(v) => v,
            None => record.processing,
        },
        processing_error: match query.processing_error {
            Some(v) => Some(v),
            None => record.processing_error,
        },
        title: match query.title {
            Some(v) => Some(v),
            None => record.title,
        },
        artist: match query.artist {
            Some(v) => Some(v),
            None => record.artist,
        },
        thumbnail: match query.thumbnail {
            Some(v) => Some(v),
            None => record.thumbnail,
        },
        mp3_128k: match query.mp3_128k {
            Some(v) => Some(v),
            None => record.mp3_128k,
        },
    }
}

pub open spec fn spec_audio_placeholder() -> AudioView {
    AudioView {
        processing: true,
        processing_error: None,
        title: None,
        artist: None,
        thumbnail: None,
        mp3_128k: None,
    }
}

impl Audio {
    pub fn placeholder() -> (r: Audio)
        ensures
            r@ == spec_audio_placeholder(),
    {
        Audio {
            processing: true,
            processing_error: None,
            title: None,
            artist: None,
            thumbnail: None,
            mp3_128k: None,
        }
    }
}

impl AudioUpdateQuery {
    pub fn empty() -> (r: AudioUpdateQuery)
        ensures
            r@ == (AudioUpdateQueryView {
                processing: None,
                processing_error: None,
                title: None,
                artist: None,
                thumbnail: None,
                mp3_128k: None,
            }),
    {
        AudioUpdateQuery {
            processing: None,
            processing_error: None,
            title: None,
            artist: None,
            thumbnail: None,
            mp3_128k: None,
        }
    }

    pub fn apply(self, record: &Audio) -> (r: Audio)
        ensures
            r@ == spec_apply_audio(record@, self@),
    {
        let r = Audio {
            processing: match self.processing {
                Some(v) => v,
                None => record.processing,
            },
            processing_error: match self.processing_error {
                Some(v) => Some(v),
                None => clone_opt_string(&record.processing_error),
            },
            title: match self.title {
                Some(v) => Some(v),
                None => clone_opt_string(&record.title),
            },
            artist: match self.artist {
                Some(v) => Some(v),
                None => clone_opt_string(&record.artist),
            },
            thumbnail: match self.thumbnail {
                Some(v) => Some(v),
                None => clone_opt_bytes(&record.thumbnail),
            },
            mp3_128k: match self.mp3_128k {
                Some(v) => Some(v),
                None => clone_opt_bytes(&record.mp3_128k),
            },
        };
        proof {
            assert(r@ =~= spec_apply_audio(record@, self@));
        }
        r
    }
}

impl Store<Audio> {
    pub fn insert(&mut self, user_id: i64) -> (id: i64)
        requires
            old(self).wf(),
            old(self).next_id_spec() < i64::MAX,
        ensures
            final(self).wf(),
            id == old(self).next_id_spec(),
            !old(self)@.contains_key(id),
            final(self)@ == old(self)@.insert(id, (user_id, spec_audio_placeholder())),
            final(self).next_id_spec() == id + 1,
    {
        self.insert_row(user_id, Audio::placeholder())
    }

    pub fn update(&mut self, id: i64, query: AudioUpdateQuery) -> (found: bool)
        requires
            old(self).wf(),
        ensures
            final(self).wf(),
            final(self).next_id_spec() == old(self).next_id_spec(),
            found <==> old(self)@.contains_key(id),
            found ==> final(self)@ == old(self)@.insert(
                id,
                (old(self)@[id].0, spec_apply_audio(old(self)@[id].1, query@)),
            ),
            !found ==> final(self)@ == old(self)@,
    {
        let patched = match self.find_row(id) {
            Some(record) => query.apply(record),
            None => { return false },
        };
        self.replace_row(id, patched)
    }
}

/// Data-model invariant for a photo record: a processing record has no
/// variant, a finalized record without error has at least one, and the two
/// role flags are never both set.
pub open spec fn spec_photo_invariant(p: PhotoView) -> bool {
    &&& p.processing ==> p.jpg_small is None && p.jpg_medium is None && p.jpg_large is None
    &&& !p.processing && p.processing_error is None ==> p.jpg_small is Some
        || p.jpg_medium is Some
        || p.jpg_large is Some
    &&& !(p.profile_picture && p.banner)
}

/// Data-model invariant for a video record.
pub open spec fn spec_video_invariant(v: VideoView) -> bool {
    &&& v.processing ==> v.thumbnail is None && v.mp4_480p is None
    &&& !v.processing && v.processing_error is None ==> v.thumbnail is Some
        || v.mp4_480p is Some
}

/// Data-model invariant for an audio record.
pub open spec fn spec_audio_invariant(a: AudioView) -> bool {
    &&& a.processing ==> a.thumbnail is None && a.mp3_128k is None
    &&& !a.processing && a.processing_error is None ==> a.thumbnail is Some
        || a.mp3_128k is Some
}

// ------------------------------------------------------------- utilities

/// Clone an optional blob, keeping its contents.
pub fn clone_opt_bytes(v: &Option<Vec<u8>>) -> (r: Option<Vec<u8>>)
    ensures
        spec_opt_bytes(r) == spec_opt_bytes(*v),
{
    match v {
        Some(bytes) => {
            let copy = bytes.clone();
            proof {
                assert(copy@ =~= bytes@);
            }
            Some(copy)
        },
        None => None,
    }
}

/// Clone an optional string, keeping its contents.
pub fn clone_opt_string(v: &Option<String>) -> (r: Option<String>)
    ensures
        r.deep_view() == v.deep_view(),
        r == *v,
{
    match v {
        Some(s) => Some(s.clone()),
        None => None,
    }
}

} // verus!
