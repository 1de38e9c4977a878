use media_pipeline::ident::{parse_media_id, MediaType};
use media_pipeline::user::User;

fn sample_user() -> User {
    User {
        id: 12,
        username: "someone".to_owned(),
        realname: "Some One".to_owned(),
        bio: Some("hello".to_owned()),
        hashed_password: "not-a-real-hash".to_owned(),
        profile_picture_photo_id: Some(34),
        banner_photo_id: None,
        followers: 5,
        following: true,
    }
}

#[test]
fn response_keeps_plain_profile_fields() {
    let response = sample_user().into_response();
    assert_eq!(response.id, 12);
    assert_eq!(response.username, "someone");
    assert_eq!(response.realname, "Some One");
    assert_eq!(response.bio, Some("hello".to_owned()));
    assert_eq!(response.followers, 5);
    assert!(response.following);
}

#[test]
fn photo_ids_become_access_mode_tokens() {
    let response = sample_user().into_response();
    let token = response.profile_picture_photo_id.unwrap();
    assert_eq!(parse_media_id(&token), Ok((MediaType::ProfilePicture, 34)));
    assert_eq!(response.banner_photo_id, None);

    let mut user = sample_user();
    user.banner_photo_id = Some(56);
    let response = user.into_response();
    let token = response.banner_photo_id.unwrap();
    assert_eq!(parse_media_id(&token), Ok((MediaType::Banner, 56)));
}
