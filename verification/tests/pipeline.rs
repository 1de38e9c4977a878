use media_pipeline::pipeline::{
    audio_failure_query, audio_success_query, encoder_args, photo_failure_query,
    photo_success_query, truncate_tag, video_success_query, AudioResult, AudioRun, AudioStep,
    PhotoResult, PhotoRun, PhotoStep, VideoResult, VideoRun, VideoStep,
};
use media_pipeline::probe::{
    audio_plan, audio_tags, photo_plan, video_plan, FfprobeFormat, FfprobeResult, FfprobeStream,
    FfprobeTags, SourceFormat,
};
use media_pipeline::record::{Audio, Photo, PhotoRole, Video};
use media_pipeline::store::Store;

fn photo_probe(codec: &str, width: u64, height: u64) -> FfprobeResult {
    FfprobeResult {
        streams: vec![FfprobeStream {
            codec_name: codec.to_owned(),
            width: Some(width),
            height: Some(height),
        }],
        format: FfprobeFormat { format_name: "image2".to_owned(), nb_streams: 1, tags: None },
    }
}

fn container_probe(format_name: &str, nb_streams: u64, tags: Option<FfprobeTags>) -> FfprobeResult {
    let mut streams = Vec::new();
    for _ in 0..nb_streams {
        streams.push(FfprobeStream { codec_name: "h264".to_owned(), width: None, height: None });
    }
    FfprobeResult {
        streams,
        format: FfprobeFormat { format_name: format_name.to_owned(), nb_streams, tags },
    }
}

// ---------------------------------------------------------------- planning

#[test]
fn small_source_plans_only_the_small_variant() {
    let plan = photo_plan(&photo_probe("png", 400, 400)).unwrap();
    assert!(!plan.medium);
    assert!(!plan.large);
    assert_eq!(plan.source, SourceFormat::Png);
}

#[test]
fn large_source_plans_all_three_variants() {
    let plan = photo_plan(&photo_probe("mjpeg", 3000, 3000)).unwrap();
    assert!(plan.medium);
    assert!(plan.large);
}

#[test]
fn medium_threshold_is_768_in_either_dimension() {
    let plan = photo_plan(&photo_probe("webp", 769, 100)).unwrap();
    assert!(plan.medium);
    assert!(!plan.large);
    let plan = photo_plan(&photo_probe("webp", 768, 768)).unwrap();
    assert!(!plan.medium);
    let plan = photo_plan(&photo_probe("webp", 100, 2049)).unwrap();
    assert!(plan.medium);
    assert!(plan.large);
}

#[test]
fn photo_plan_rejects_bad_stream_counts() {
    let mut probe = photo_probe("png", 10, 10);
    probe.format.nb_streams = 0;
    assert_eq!(photo_plan(&probe).unwrap_err().error, "invalid stream count");
    let mut probe = photo_probe("png", 10, 10);
    probe.format.nb_streams = 2;
    assert_eq!(photo_plan(&probe).unwrap_err().error, "invalid stream count");
}

#[test]
fn photo_plan_rejects_unknown_codec() {
    let err = photo_plan(&photo_probe("tiff", 10, 10)).unwrap_err();
    assert_eq!(err.error, "unsupported codec");
    assert_eq!(err.ffmpeg_error, None);
}

#[test]
fn photo_plan_rejects_missing_dimensions() {
    let mut probe = photo_probe("png", 10, 10);
    probe.streams[0].width = None;
    assert_eq!(photo_plan(&probe).unwrap_err().error, "cannot read dimensions");
}

#[test]
fn video_plan_maps_containers() {
    let plan = video_plan(&container_probe("mov,mp4,m4a,3gp,3g2,mj2", 2, None)).unwrap();
    assert_eq!(plan.source, SourceFormat::Mp4);
    assert_eq!(plan.source.extension(), "mp4");
    let plan = video_plan(&container_probe("matroska,webm", 1, None)).unwrap();
    assert_eq!(plan.source, SourceFormat::Webm);
    assert_eq!(
        video_plan(&container_probe("avi", 1, None)).unwrap_err().error,
        "unsupported codec"
    );
    assert_eq!(
        video_plan(&container_probe("matroska,webm", 0, None)).unwrap_err().error,
        "invalid stream count"
    );
}

#[test]
fn audio_plan_detects_cover_art() {
    let plan = audio_plan(&container_probe("mp3", 2, None)).unwrap();
    assert_eq!(plan.source, SourceFormat::Mp3);
    assert!(plan.cover_art);
    let plan = audio_plan(&container_probe("flac", 1, None)).unwrap();
    assert!(!plan.cover_art);
    let plan = audio_plan(&container_probe("mov,mp4,m4a,3gp,3g2,mj2", 1, None)).unwrap();
    assert_eq!(plan.source, SourceFormat::M4a);
    assert_eq!(plan.source.extension(), "m4a");
    assert_eq!(
        audio_plan(&container_probe("wav", 1, None)).unwrap_err().error,
        "unsupported codec"
    );
}

#[test]
fn audio_tags_come_from_the_container() {
    let tags = FfprobeTags {
        title: Some("Мой байк".to_owned()),
        artist: Some("Серега Пират".to_owned()),
    };
    let probe = container_probe("mp3", 2, Some(tags));
    let (title, artist) = audio_tags(&probe);
    assert_eq!(title.unwrap(), "Мой байк");
    assert_eq!(artist.unwrap(), "Серега Пират");
    let (title, artist) = audio_tags(&container_probe("mp3", 1, None));
    assert_eq!(title, None);
    assert_eq!(artist, None);
}

// -------------------------------------------------------------- truncation

#[test]
fn short_tags_are_kept_whole() {
    assert_eq!(truncate_tag("hello".to_owned()), "hello");
    assert_eq!(truncate_tag(String::new()), "");
    let exactly_100: String = "x".repeat(100);
    assert_eq!(truncate_tag(exactly_100.clone()), exactly_100);
}

#[test]
fn long_tags_are_capped_at_100_characters() {
    let long: String = "ab".repeat(80);
    let truncated = truncate_tag(long);
    assert_eq!(truncated.chars().count(), 100);
    assert_eq!(truncated, "ab".repeat(50));
    // Characters, not bytes: each of these is multi-byte in UTF-8.
    let cyrillic: String = "ж".repeat(150);
    let truncated = truncate_tag(cyrillic);
    assert_eq!(truncated.chars().count(), 100);
    assert_eq!(truncated, "ж".repeat(100));
}

// ------------------------------------------------------------ photo runs

#[test]
fn photo_run_walks_planned_steps_in_order() {
    let plan = photo_plan(&photo_probe("png", 3000, 3000)).unwrap();
    let mut run = PhotoRun::new(plan);
    assert_eq!(run.next_step(), Some(PhotoStep::Small));
    run.record_success(PhotoStep::Small, vec![1]);
    assert_eq!(run.next_step(), Some(PhotoStep::Medium));
    run.record_success(PhotoStep::Medium, vec![2]);
    assert_eq!(run.next_step(), Some(PhotoStep::Large));
    run.record_success(PhotoStep::Large, vec![3]);
    assert_eq!(run.next_step(), None);
    let result = run.finish().unwrap();
    assert_eq!(result.jpg_small, vec![1]);
    assert_eq!(result.jpg_medium, Some(vec![2]));
    assert_eq!(result.jpg_large, Some(vec![3]));
}

#[test]
fn photo_run_skips_unplanned_variants() {
    let plan = photo_plan(&photo_probe("png", 400, 400)).unwrap();
    let mut run = PhotoRun::new(plan);
    assert_eq!(run.next_step(), Some(PhotoStep::Small));
    run.record_success(PhotoStep::Small, vec![9]);
    assert_eq!(run.next_step(), None);
    let result = run.finish().unwrap();
    assert_eq!(result.jpg_small, vec![9]);
    assert_eq!(result.jpg_medium, None);
    assert_eq!(result.jpg_large, None);
}

#[test]
fn photo_run_aborts_on_failure() {
    let plan = photo_plan(&photo_probe("png", 1000, 1000)).unwrap();
    let mut run = PhotoRun::new(plan);
    run.record_success(PhotoStep::Small, vec![1]);
    assert_eq!(run.next_step(), Some(PhotoStep::Medium));
    run.record_failure(PhotoStep::Medium, "boom".to_owned());
    assert_eq!(run.next_step(), None);
    let err = run.finish().unwrap_err();
    assert_eq!(err.error, "cannot process medium photo");
    assert_eq!(err.ffmpeg_error, Some("boom".to_owned()));
}

#[test]
fn video_run_produces_thumbnail_then_rendition() {
    let plan = video_plan(&container_probe("matroska,webm", 1, None)).unwrap();
    let mut run = VideoRun::new(plan);
    assert_eq!(run.next_step(), Some(VideoStep::Thumbnail));
    run.record_success(VideoStep::Thumbnail, vec![7]);
    assert_eq!(run.next_step(), Some(VideoStep::Rendition480p));
    run.record_success(VideoStep::Rendition480p, vec![8, 8]);
    assert_eq!(run.next_step(), None);
    let result = run.finish().unwrap();
    assert_eq!(result.thumbnail, vec![7]);
    assert_eq!(result.mp4_480p, vec![8, 8]);
}

#[test]
fn audio_run_extracts_cover_art_only_when_present() {
    let plan = audio_plan(&container_probe("mp3", 2, None)).unwrap();
    let mut run = AudioRun::new(plan, Some("t".to_owned()), None);
    assert_eq!(run.next_step(), Some(AudioStep::Rendition128k));
    run.record_success(AudioStep::Rendition128k, vec![1]);
    assert_eq!(run.next_step(), Some(AudioStep::Thumbnail));
    run.record_success(AudioStep::Thumbnail, vec![2]);
    assert_eq!(run.next_step(), None);
    let result = run.finish().unwrap();
    assert_eq!(result.title, Some("t".to_owned()));
    assert_eq!(result.artist, None);
    assert_eq!(result.thumbnail, Some(vec![2]));
    assert_eq!(result.mp3_128k, vec![1]);

    let plan = audio_plan(&container_probe("ogg", 1, None)).unwrap();
    let mut run = AudioRun::new(plan, None, None);
    run.record_success(AudioStep::Rendition128k, vec![3]);
    assert_eq!(run.next_step(), None);
    let result = run.finish().unwrap();
    assert_eq!(result.thumbnail, None);
}

#[test]
fn audio_run_failure_names_the_step() {
    let plan = audio_plan(&container_probe("mp3", 1, None)).unwrap();
    let mut run = AudioRun::new(plan, None, None);
    run.record_failure(AudioStep::Rendition128k, "stderr text".to_owned());
    let err = run.finish().unwrap_err();
    assert_eq!(err.error, "cannot process 128k audio");
    assert_eq!(err.ffmpeg_error, Some("stderr text".to_owned()));
}

// ------------------------------------------------------------- arguments

#[test]
fn encoder_invocations_use_the_fixed_templates() {
    let args = PhotoStep::Small.filter_args();
    assert_eq!(
        args,
        vec![
            "-vf".to_owned(),
            "scale='min(512,iw)':'min(512,ih)':force_original_aspect_ratio=decrease".to_owned(),
        ]
    );
    assert_eq!(PhotoStep::Medium.output_name(), "output_medium.jpg");
    assert_eq!(
        AudioStep::Rendition128k.filter_args(),
        vec!["-vn", "-map", "0:0", "-b:a", "128k"]
            .into_iter()
            .map(str::to_owned)
            .collect::<Vec<String>>()
    );
    assert_eq!(VideoStep::Rendition480p.filter_args().len(), 12);
    assert_eq!(VideoStep::Thumbnail.output_name(), "output.jpg");

    let full = encoder_args(
        "/tmp/input.png".to_owned(),
        PhotoStep::Small.filter_args(),
        "/tmp/output_small.jpg".to_owned(),
    );
    assert_eq!(full[0], "-i");
    assert_eq!(full[1], "/tmp/input.png");
    assert_eq!(full[2], "-map_metadata");
    assert_eq!(full[3], "-1");
    assert_eq!(full[full.len() - 1], "/tmp/output_small.jpg");
    assert_eq!(full.len(), 7);
}

// ------------------------------------------------------------ finalization

#[test]
fn successful_run_finalizes_the_record() {
    let mut photos: Store<Photo> = Store::new();
    let id = photos.insert(1);
    let result = PhotoResult { jpg_small: vec![1], jpg_medium: Some(vec![2]), jpg_large: None };
    assert!(photos.update(id, photo_success_query(result, PhotoRole::ProfilePicture)));
    let record = photos.find_row(id).unwrap();
    assert!(!record.processing);
    assert_eq!(record.processing_error, None);
    assert_eq!(record.jpg_small, Some(vec![1]));
    assert_eq!(record.jpg_medium, Some(vec![2]));
    assert_eq!(record.jpg_large, None);
    assert!(record.profile_picture);
    assert!(!record.banner);
}

#[test]
fn failed_run_marks_the_record_and_delete_hides_it() {
    let mut videos: Store<Video> = Store::new();
    let id = videos.insert(1);
    let result = VideoRun::new(video_plan(&container_probe("matroska,webm", 1, None)).unwrap());
    let mut run = result;
    run.record_failure(VideoStep::Thumbnail, "enc err".to_owned());
    let err = run.finish().unwrap_err();
    assert!(videos.update(
        id,
        media_pipeline::pipeline::video_failure_query(err)
    ));
    let record = videos.find_row(id).unwrap();
    assert!(!record.processing);
    assert_eq!(record.processing_error, Some("cannot process thumbnail photo".to_owned()));
    // The captured stderr is diagnostic only: it never reaches the record.
    assert!(videos.remove_row(id));
    assert!(videos.find_row(id).is_none());
}

#[test]
fn audio_success_caps_tags() {
    let mut audios: Store<Audio> = Store::new();
    let id = audios.insert(1);
    let result = AudioResult {
        title: Some("t".repeat(150)),
        artist: Some("a".to_owned()),
        thumbnail: None,
        mp3_128k: vec![5],
    };
    assert!(audios.update(id, audio_success_query(result)));
    let record = audios.find_row(id).unwrap();
    assert_eq!(record.title, Some("t".repeat(100)));
    assert_eq!(record.artist, Some("a".to_owned()));
    assert_eq!(record.thumbnail, None);
    assert_eq!(record.mp3_128k, Some(vec![5]));
    assert!(!record.processing);
}

#[test]
fn failure_queries_persist_only_the_summary() {
    let photo_q = photo_failure_query(media_pipeline::errors::MediaError::new(
        "cannot process small photo".to_owned(),
        Some("noise".to_owned()),
    ));
    assert_eq!(photo_q.processing, Some(false));
    assert_eq!(photo_q.processing_error, Some("cannot process small photo".to_owned()));
    assert_eq!(photo_q.jpg_small, None);
    let audio_q = audio_failure_query(media_pipeline::errors::MediaError::new(
        "cannot process 128k audio".to_owned(),
        None,
    ));
    assert_eq!(audio_q.processing, Some(false));
    assert_eq!(audio_q.title, None);
}

#[test]
fn video_success_query_sets_both_variants() {
    let q = video_success_query(VideoResult { thumbnail: vec![1], mp4_480p: vec![2] });
    assert_eq!(q.processing, Some(false));
    assert_eq!(q.processing_error, None);
    assert_eq!(q.thumbnail, Some(vec![1]));
    assert_eq!(q.mp4_480p, Some(vec![2]));
}
