//! User profile model and its public response shape.
//!
//! Only the media-facing part carries logic: a profile carries the numeric
//! ids of its profile picture and banner photos, and the response encodes
//! each as an access-mode token.

use vstd::prelude::*;

use crate::ident::{base64_url, encode_media_id, media_id_payload, MediaType};

verus! {

pub struct User {
    pub id: i64,
    pub username: String,
    pub realname: String,
    pub bio: Option<String>,
    pub hashed_password: String,
    pub profile_picture_photo_id: Option<i64>,
    pub banner_photo_id: Option<i64>,
    pub followers: i64,
    pub following: bool,
}

/// Sparse profile update: only the fields present are changed.
pub struct UserUpdateQuery {
    pub username: Option<String>,
    pub realname: Option<String>,
    pub bio: Option<String>,
    pub hashed_password: Option<String>,
    pub profile_picture_photo_id: Option<i64>,
    pub banner_photo_id: Option<i64>,
}

/// Public view of a profile: the photo ids appear as access-mode tokens,
/// and the password hash does not appear at all.
pub struct UserResponse {
    pub id: i64,
    pub followers: i64,
    pub username: String,
    pub realname: String,
    pub bio: Option<String>,
    pub following: bool,
    pub profile_picture_photo_id: Option<String>,
    pub banner_photo_id: Option<String>,
}

impl User {
    /// Build the public response: plain fields carry over, and each photo
    /// id is encoded as a token under its access mode.
    pub fn into_response(self) -> (r: UserResponse)
        ensures
            r.id == self.id,
            r.followers == self.followers,
            r.username == self.username,
            r.realname == self.realname,
            r.bio == self.bio,
            r.following == self.following,
            match self.profile_picture_photo_id {
                Some(photo_id) => r.profile_picture_photo_id matches Some(token)
                    && vstd::utf8::encode_utf8(token@) == base64_url(
                    media_id_payload(MediaType::ProfilePicture, photo_id),
                ),
                None => r.profile_picture_photo_id is None,
            },
            match self.banner_photo_id {
                Some(photo_id) => r.banner_photo_id matches Some(token)
                    && vstd::utf8::encode_utf8(token@) == base64_url(
                    media_id_payload(MediaType::Banner, photo_id),
                ),
                None => r.banner_photo_id is None,
            },
    {
        UserResponse {
            id: self.id,
            followers: self.followers,
            username: self.username,
            realname: self.realname,
            bio: self.bio,
            following: self.following,
            profile_picture_photo_id: match self.profile_picture_photo_id {
                Some(photo_id) => Some(encode_media_id(MediaType::ProfilePicture, photo_id)),
                None => None,
            },
            banner_photo_id: match self.banner_photo_id {
                Some(photo_id) => Some(encode_media_id(MediaType::Banner, photo_id)),
                None => None,
            },
        }
    }
}

} // verus!
