use media_pipeline::errors::MediaServeError;
use media_pipeline::delivery::check_status;
use media_pipeline::record::{Audio, AudioUpdateQuery, Photo, PhotoUpdateQuery, Video, VideoUpdateQuery};
use media_pipeline::store::Store;
use media_pipeline::upload::{begin_photo_upload, begin_video_upload, begin_audio_upload};
use media_pipeline::record::PhotoRole;

#[test]
fn insert_assigns_fresh_increasing_ids() {
    let mut photos: Store<Photo> = Store::new();
    let a = photos.insert(10);
    let b = photos.insert(11);
    assert_eq!(a, 1);
    assert_eq!(b, 2);
    assert!(photos.find_row(a).is_some());
    assert!(photos.find_row(b).is_some());
    assert!(photos.find_row(3).is_none());
}

#[test]
fn new_record_is_a_processing_placeholder() {
    let mut photos: Store<Photo> = Store::new();
    let id = photos.insert(42);
    let record = photos.find_row(id).unwrap();
    assert!(record.processing);
    assert_eq!(record.processing_error, None);
    assert!(!record.profile_picture);
    assert!(!record.banner);
    assert!(record.jpg_small.is_none());
    assert!(record.jpg_medium.is_none());
    assert!(record.jpg_large.is_none());
}

#[test]
fn new_record_is_observable_via_status_check() {
    let mut photos: Store<Photo> = Store::new();
    let videos: Store<Video> = Store::new();
    let mut audios: Store<Audio> = Store::new();

    let (_, token) = begin_photo_upload(&mut photos, 7, PhotoRole::Plain);
    let status = check_status(&photos, &videos, &audios, &token).unwrap();
    assert!(status.processing);
    assert_eq!(status.processing_error, None);

    let (_, audio_token) = begin_audio_upload(&mut audios, 7);
    let status = check_status(&photos, &videos, &audios, &audio_token).unwrap();
    assert!(status.processing);
    assert_eq!(status.processing_error, None);
}

#[test]
fn status_check_of_absent_record_is_not_found() {
    let photos: Store<Photo> = Store::new();
    let mut videos: Store<Video> = Store::new();
    let audios: Store<Audio> = Store::new();
    let (id, token) = begin_video_upload(&mut videos, 1);
    videos.remove_row(id);
    assert_eq!(
        check_status(&photos, &videos, &audios, &token),
        Err(MediaServeError::NotFound)
    );
}

#[test]
fn update_patches_only_present_fields() {
    let mut photos: Store<Photo> = Store::new();
    let id = photos.insert(1);

    let mut query = PhotoUpdateQuery::empty();
    query.jpg_small = Some(vec![1, 2, 3]);
    assert!(photos.update(id, query));

    let record = photos.find_row(id).unwrap();
    // Only the patched field changed; the rest kept the placeholder state.
    assert_eq!(record.jpg_small, Some(vec![1, 2, 3]));
    assert!(record.processing);
    assert_eq!(record.processing_error, None);
    assert!(record.jpg_medium.is_none());

    let mut query = PhotoUpdateQuery::empty();
    query.processing = Some(false);
    assert!(photos.update(id, query));
    let record = photos.find_row(id).unwrap();
    assert!(!record.processing);
    assert_eq!(record.jpg_small, Some(vec![1, 2, 3]));
}

#[test]
fn update_never_creates_a_row() {
    let mut photos: Store<Photo> = Store::new();
    let mut query = PhotoUpdateQuery::empty();
    query.processing = Some(false);
    assert!(!photos.update(5, query));
    assert!(photos.find_row(5).is_none());
}

#[test]
fn delete_removes_exactly_one_row() {
    let mut photos: Store<Photo> = Store::new();
    let a = photos.insert(1);
    let b = photos.insert(1);
    assert!(photos.remove_row(a));
    assert!(photos.find_row(a).is_none());
    assert!(photos.find_row(b).is_some());
    assert!(!photos.remove_row(a));
}

#[test]
fn empty_patch_changes_nothing() {
    let mut videos: Store<Video> = Store::new();
    let id = videos.insert(3);
    assert!(videos.update(id, VideoUpdateQuery::empty()));
    let record = videos.find_row(id).unwrap();
    assert!(record.processing);
    assert_eq!(record.processing_error, None);
    assert!(record.thumbnail.is_none());
    assert!(record.mp4_480p.is_none());

    let mut audios: Store<Audio> = Store::new();
    let id = audios.insert(3);
    assert!(audios.update(id, AudioUpdateQuery::empty()));
    let record = audios.find_row(id).unwrap();
    assert!(record.processing);
    assert!(record.title.is_none());
    assert!(record.mp3_128k.is_none());
}
