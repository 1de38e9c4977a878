use media_pipeline::delivery::{audio_metadata, content_range_value, deliver, delivery_filename, Delivery};
use media_pipeline::errors::MediaServeError;
use media_pipeline::ident::{encode_media_id, MediaType};
use media_pipeline::pipeline::{
    audio_success_query, photo_success_query, video_success_query, AudioResult, PhotoResult,
    VideoResult,
};
use media_pipeline::record::{Audio, Photo, PhotoRole, Video};
use media_pipeline::store::Store;
use media_pipeline::upload::{begin_audio_upload, begin_photo_upload, begin_video_upload};

struct World {
    photos: Store<Photo>,
    videos: Store<Video>,
    audios: Store<Audio>,
}

impl World {
    fn new() -> World {
        World { photos: Store::new(), videos: Store::new(), audios: Store::new() }
    }

    fn deliver(
        &self,
        token: &str,
        ext: &str,
        resolution: Option<&str>,
        range: Option<&str>,
    ) -> Result<Delivery, MediaServeError> {
        deliver(&self.photos, &self.videos, &self.audios, token, ext, resolution, range)
    }

    /// A finished photo with the given variants, under the given role.
    fn finished_photo(
        &mut self,
        role: PhotoRole,
        small: Option<Vec<u8>>,
        medium: Option<Vec<u8>>,
        large: Option<Vec<u8>>,
    ) -> String {
        let (id, token) = begin_photo_upload(&mut self.photos, 1, role);
        let result = PhotoResult {
            jpg_small: small.unwrap_or_default(),
            jpg_medium: medium,
            jpg_large: large,
        };
        assert!(self.photos.update(id, photo_success_query(result, role)));
        token
    }
}

#[test]
fn invalid_token_is_rejected_first() {
    let w = World::new();
    assert_eq!(w.deliver("???", "jpg", None, None), Err(MediaServeError::InvalidIdentifier));
}

#[test]
fn absent_record_is_not_found() {
    let w = World::new();
    let token = encode_media_id(MediaType::Photo, 9);
    assert_eq!(w.deliver(&token, "jpg", None, None), Err(MediaServeError::NotFound));
}

#[test]
fn processing_record_signals_still_processing() {
    let mut w = World::new();
    let (_, token) = begin_photo_upload(&mut w.photos, 1, PhotoRole::Plain);
    assert_eq!(w.deliver(&token, "jpg", None, None), Err(MediaServeError::StillProcessing));
    let (_, token) = begin_video_upload(&mut w.videos, 1);
    assert_eq!(w.deliver(&token, "mp4", None, None), Err(MediaServeError::StillProcessing));
    assert_eq!(w.deliver(&token, "jpg", None, None), Err(MediaServeError::StillProcessing));
}

#[test]
fn unknown_or_short_extension_is_incompatible() {
    let mut w = World::new();
    let token = w.finished_photo(PhotoRole::Plain, Some(vec![1]), None, None);
    assert_eq!(w.deliver(&token, "gif", None, None), Err(MediaServeError::IncompatibleMediaType));
    assert_eq!(w.deliver(&token, "jp", None, None), Err(MediaServeError::IncompatibleMediaType));
}

#[test]
fn extension_must_match_the_kind() {
    let mut w = World::new();
    let photo_token = w.finished_photo(PhotoRole::Plain, Some(vec![1]), None, None);
    assert_eq!(
        w.deliver(&photo_token, "mp4", None, None),
        Err(MediaServeError::IncompatibleMediaType)
    );
    assert_eq!(
        w.deliver(&photo_token, "mp3", None, None),
        Err(MediaServeError::IncompatibleMediaType)
    );
}

#[test]
fn photo_is_served_with_mime_and_label() {
    let mut w = World::new();
    let token = w.finished_photo(PhotoRole::Plain, Some(vec![1, 2]), Some(vec![3, 4, 5]), None);
    let d = w.deliver(&token, "jpg", None, None).unwrap();
    // The default photo hint is "medium".
    assert_eq!(d.body, vec![3, 4, 5]);
    assert_eq!(d.resolution_label, "medium");
    assert_eq!(d.content_type, "image/jpeg");
    assert!(!d.partial);
    assert_eq!(d.content_range, None);

    let d = w.deliver(&token, "jpg", Some("small"), None).unwrap();
    assert_eq!(d.body, vec![1, 2]);
    assert_eq!(d.resolution_label, "small");
}

#[test]
fn unavailable_resolution_falls_back_to_populated_variant() {
    let mut w = World::new();
    let token = w.finished_photo(PhotoRole::Plain, Some(vec![7, 7]), None, None);
    // Only "small" exists; asking for "large" must serve it, not fail.
    let d = w.deliver(&token, "jpg", Some("large"), None).unwrap();
    assert_eq!(d.body, vec![7, 7]);
    assert_eq!(d.resolution_label, "small");
}

#[test]
fn largest_variant_wins_the_fallback_order() {
    let mut w = World::new();
    let token = w.finished_photo(
        PhotoRole::Plain,
        Some(vec![1]),
        Some(vec![2]),
        Some(vec![3]),
    );
    let d = w.deliver(&token, "jpg", Some("480p"), None).unwrap();
    assert_eq!(d.body, vec![3]);
    assert_eq!(d.resolution_label, "large");
}

#[test]
fn role_mismatch_is_incompatible() {
    let mut w = World::new();
    let banner_token = w.finished_photo(PhotoRole::Banner, Some(vec![1]), None, None);
    // The same record under ProfilePicture mode: decode the id part by
    // re-encoding under the other mode.
    let plain = w.finished_photo(PhotoRole::Plain, Some(vec![2]), None, None);

    // A ProfilePicture-mode token for a banner-role record is refused.
    let banner_id = media_pipeline::ident::parse_media_id(&banner_token).unwrap().1;
    let pp_token_for_banner = encode_media_id(MediaType::ProfilePicture, banner_id);
    assert_eq!(
        w.deliver(&pp_token_for_banner, "jpg", None, None),
        Err(MediaServeError::IncompatibleMediaType)
    );
    // A plain photo token for the banner record is refused too.
    let photo_token_for_banner = encode_media_id(MediaType::Photo, banner_id);
    assert_eq!(
        w.deliver(&photo_token_for_banner, "jpg", None, None),
        Err(MediaServeError::IncompatibleMediaType)
    );
    // The banner token itself works.
    let d = w.deliver(&banner_token, "jpg", None, None).unwrap();
    assert_eq!(d.body, vec![1]);
    // And a plain token still serves the role-less photo.
    let d = w.deliver(&plain, "jpg", None, None).unwrap();
    assert_eq!(d.body, vec![2]);
}

#[test]
fn video_delivery_serves_rendition_and_thumbnail() {
    let mut w = World::new();
    let (id, token) = begin_video_upload(&mut w.videos, 1);
    let result = VideoResult { thumbnail: vec![9], mp4_480p: vec![4, 8, 0] };
    assert!(w.videos.update(id, video_success_query(result)));
    let d = w.deliver(&token, "mp4", None, None).unwrap();
    assert_eq!(d.body, vec![4, 8, 0]);
    assert_eq!(d.content_type, "video/mp4");
    assert_eq!(d.resolution_label, "480p");
    let d = w.deliver(&token, "jpg", None, None).unwrap();
    assert_eq!(d.body, vec![9]);
    assert_eq!(d.content_type, "image/jpeg");
    assert_eq!(d.resolution_label, "thumbnail");
}

#[test]
fn audio_delivery_serves_rendition_and_thumbnail() {
    let mut w = World::new();
    let (id, token) = begin_audio_upload(&mut w.audios, 1);
    let result = AudioResult {
        title: Some("t".to_owned()),
        artist: None,
        thumbnail: Some(vec![6]),
        mp3_128k: vec![1, 2, 8],
    };
    assert!(w.audios.update(id, audio_success_query(result)));
    let d = w.deliver(&token, "mp3", None, None).unwrap();
    assert_eq!(d.body, vec![1, 2, 8]);
    assert_eq!(d.content_type, "audio/mpeg");
    assert_eq!(d.resolution_label, "128k");
    let d = w.deliver(&token, "jpg", None, None).unwrap();
    assert_eq!(d.body, vec![6]);
    assert_eq!(d.resolution_label, "thumbnail");
}

#[test]
fn audio_without_cover_art_has_no_thumbnail_to_serve() {
    let mut w = World::new();
    let (id, token) = begin_audio_upload(&mut w.audios, 1);
    let result =
        AudioResult { title: None, artist: None, thumbnail: None, mp3_128k: vec![1] };
    assert!(w.audios.update(id, audio_success_query(result)));
    assert_eq!(w.deliver(&token, "jpg", None, None), Err(MediaServeError::StillProcessing));
}

// ----------------------------------------------------------------- ranges

fn thousand_byte_photo(w: &mut World) -> String {
    let body: Vec<u8> = (0..1000u32).map(|i| (i % 251) as u8).collect();
    w.finished_photo(PhotoRole::Plain, Some(body), None, None)
}

#[test]
fn open_ended_range_from_zero_serves_the_full_payload() {
    let mut w = World::new();
    let token = thousand_byte_photo(&mut w);
    let d = w.deliver(&token, "jpg", None, Some("bytes=0-")).unwrap();
    assert!(!d.partial);
    assert_eq!(d.body.len(), 1000);
    assert_eq!(d.content_range, None);
}

#[test]
fn inner_range_serves_a_partial_response() {
    let mut w = World::new();
    let token = thousand_byte_photo(&mut w);
    let d = w.deliver(&token, "jpg", None, Some("bytes=100-199")).unwrap();
    assert!(d.partial);
    assert_eq!(d.body.len(), 100);
    assert_eq!(d.body[0], 100 % 251);
    assert_eq!(d.content_range, Some((100, 199, 1000)));
}

#[test]
fn out_of_bounds_range_is_not_satisfiable() {
    let mut w = World::new();
    let token = thousand_byte_photo(&mut w);
    assert_eq!(
        w.deliver(&token, "jpg", None, Some("bytes=2000-3000")),
        Err(MediaServeError::RangeNotSatisfiable)
    );
    assert_eq!(
        w.deliver(&token, "jpg", None, Some("bytes=500-100")),
        Err(MediaServeError::RangeNotSatisfiable)
    );
}

#[test]
fn multi_range_requests_serve_the_full_payload() {
    let mut w = World::new();
    let token = thousand_byte_photo(&mut w);
    let d = w.deliver(&token, "jpg", None, Some("bytes=0-100,200-300")).unwrap();
    assert!(!d.partial);
    assert_eq!(d.body.len(), 1000);
}

#[test]
fn malformed_range_headers_serve_the_full_payload() {
    let mut w = World::new();
    let token = thousand_byte_photo(&mut w);
    for header in ["items=0-5", "bytes?", "", "bytes="] {
        let d = w.deliver(&token, "jpg", None, Some(header)).unwrap();
        assert!(!d.partial, "header {header:?}");
        assert_eq!(d.body.len(), 1000);
    }
}

#[test]
fn prefix_range_without_start_reads_from_zero() {
    let mut w = World::new();
    let token = thousand_byte_photo(&mut w);
    let d = w.deliver(&token, "jpg", None, Some("bytes=-199")).unwrap();
    assert!(d.partial);
    assert_eq!(d.body.len(), 200);
    assert_eq!(d.content_range, Some((0, 199, 1000)));
}

#[test]
fn single_byte_range_is_satisfiable() {
    let mut w = World::new();
    let token = thousand_byte_photo(&mut w);
    let d = w.deliver(&token, "jpg", None, Some("bytes=999-999")).unwrap();
    assert!(d.partial);
    assert_eq!(d.body.len(), 1);
    assert_eq!(d.content_range, Some((999, 999, 1000)));
}

// ---------------------------------------------------------------- metadata

#[test]
fn metadata_reports_tags_and_thumbnail_presence() {
    let mut w = World::new();
    let (id, token) = begin_audio_upload(&mut w.audios, 1);
    let result = AudioResult {
        title: Some("song".to_owned()),
        artist: Some("artist".to_owned()),
        thumbnail: Some(vec![1]),
        mp3_128k: vec![2],
    };
    assert!(w.audios.update(id, audio_success_query(result)));
    let m = audio_metadata(&w.audios, &token).unwrap();
    assert_eq!(m.title, Some("song".to_owned()));
    assert_eq!(m.artist, Some("artist".to_owned()));
    assert!(m.thumbnail);
}

#[test]
fn metadata_for_non_audio_token_is_incompatible() {
    let mut w = World::new();
    let token = w.finished_photo(PhotoRole::Plain, Some(vec![1]), None, None);
    assert_eq!(
        audio_metadata(&w.audios, &token),
        Err(MediaServeError::IncompatibleMediaType)
    );
    assert_eq!(
        audio_metadata(&w.audios, &encode_media_id(MediaType::Audio, 7)),
        Err(MediaServeError::NotFound)
    );
}

#[test]
fn filename_joins_token_label_and_extension() {
    assert_eq!(delivery_filename("AQ", "small", "jpg"), "AQ_small.jpg");
    assert_eq!(delivery_filename("", "128k", "mp3"), "_128k.mp3");
}

#[test]
fn open_ended_range_from_midpoint_is_partial() {
    let mut w = World::new();
    let token = thousand_byte_photo(&mut w);
    let d = w.deliver(&token, "jpg", None, Some("bytes=100-")).unwrap();
    assert!(d.partial);
    assert_eq!(d.body.len(), 900);
    assert_eq!(d.content_range, Some((100, 999, 1000)));
}

#[test]
fn extension_is_matched_on_its_first_three_characters() {
    let mut w = World::new();
    let token = w.finished_photo(PhotoRole::Plain, Some(vec![5]), None, None);
    // Only the first three characters decide: "jpgx" asks for a jpg, while
    // "jpeg" starts with "jpe" and asks for nothing.
    let d = w.deliver(&token, "jpgx", None, None).unwrap();
    assert_eq!(d.body, vec![5]);
    assert_eq!(d.content_type, "image/jpeg");
    assert_eq!(w.deliver(&token, "jpeg", None, None), Err(MediaServeError::IncompatibleMediaType));
}

#[test]
fn content_range_header_renders_the_triple() {
    assert_eq!(content_range_value(100, 199, 1000), "bytes 100-199/1000");
    assert_eq!(content_range_value(0, 0, 1), "bytes 0-0/1");
    assert_eq!(content_range_value(0, 1023, 204800), "bytes 0-1023/204800");
}
