use std::str::FromStr;

use photos::app_state::blobs::file::Blobs as FileBlobs;
use photos::app_state::blobs::memory::{Blobs, BlobsDeleteError, BlobsReadError};
use photos::common::file::Type;
use photos::common::http::{get_bearer_token, get_file_type};
use photos::common::id::Id;
use photos::common::token::{Token, TokenDecodeError};
use photos::common::utils::path_matches_ext;
use photos::app_state::store::users::{User, Users};
use photos::common::authentication::Authentication;
use photos::permission;

#[test]
fn mime_types_round_trip() {
    assert_eq!(Type::from_mime_type("image/jpeg"), Some(Type::Jpg));
    assert_eq!(Type::from_mime_type("image/png"), Some(Type::Png));
    assert_eq!(Type::from_mime_type("image/gif"), None);
    assert_eq!(Type::from_mime_type(Type::Jpg.to_mime_type()), Some(Type::Jpg));
    assert_eq!(Type::from_mime_type(Type::Png.to_mime_type()), Some(Type::Png));
}

#[test]
fn file_type_from_content_type_header() {
    assert_eq!(get_file_type(Some("image/jpeg")), Some(Type::Jpg));
    assert_eq!(get_file_type(Some("IMAGE/PNG; charset=utf-8")), Some(Type::Png));
    assert_eq!(get_file_type(Some("asdf")), None);
    assert_eq!(get_file_type(Some("text/plain")), None);
    assert_eq!(get_file_type(None), None);
}

#[test]
fn bearer_tokens() {
    assert_eq!(get_bearer_token(Some("Bearer abc")), Some("abc"));
    assert_eq!(get_bearer_token(Some("Bearer a b")), Some("a b"));
    assert_eq!(get_bearer_token(Some("Bearer ")), Some(""));
    assert_eq!(get_bearer_token(Some("Bearer")), None);
    assert_eq!(get_bearer_token(Some("Basic abc")), None);
    assert_eq!(get_bearer_token(Some("bearer abc")), None);
    assert_eq!(get_bearer_token(None), None);
}

#[test]
fn image_extensions() {
    assert!(path_matches_ext("photo.jpg"));
    assert!(path_matches_ext("./pictures/a.b.PNG"));
    assert!(path_matches_ext("/x/y.JPG/."));
    assert!(path_matches_ext("dir/z.png//"));
    assert!(!path_matches_ext(".jpg"));
    assert!(!path_matches_ext("photo.Jpg"));
    assert!(!path_matches_ext("photo.gif"));
    assert!(!path_matches_ext("photo"));
    assert!(!path_matches_ext("a.jpg/.."));
    assert!(!path_matches_ext("/"));
    assert!(!path_matches_ext(""));
    assert!(!path_matches_ext("photo.jpg."));
}

#[test]
fn id_text_round_trip() {
    let id = Id::new();
    assert_eq!(Id::from_str(&id.to_string()).unwrap(), id);
    let known = Id::from_str("2bQFgyUNCCRUs8SitkgBG8L37KL1").unwrap();
    assert_eq!(known.to_string(), "2bQFgyUNCCRUs8SitkgBG8L37KL1");
    assert!(matches!(
        Id::from_str("asdf"),
        Err(photos::common::id::IdDecodeError::WrongLength)
    ));
    assert!(matches!(
        Id::from_str("0OIl"),
        Err(photos::common::id::IdDecodeError::Bs58DecodeError(_))
    ));
}

#[test]
fn fresh_ids_avoid_taken_ones() {
    let taken: Vec<Id> = (0..5).map(|_| Id::new()).collect();
    let id = Id::new_unused(&taken);
    assert!(!taken.contains(&id));
}

#[test]
fn token_round_trip() {
    let token = Token::new();
    let text = token.encode();
    let back = Token::decode(text).ok().unwrap();
    assert_eq!(back.0, token.0);
    assert_eq!(back, token);
    assert_ne!(Token([1u8; 32]), Token([2u8; 32]));
    assert!(matches!(
        Token::decode("2bQFgyUNCCRUs8SitkgBG8L37KL1".to_string()),
        Err(TokenDecodeError::WrongLength)
    ));
    assert!(matches!(
        Token::decode("not base 58!".to_string()),
        Err(TokenDecodeError::BS58DecodeError(_))
    ));
}

#[test]
fn memory_blobs() {
    let mut blobs = Blobs::new();
    let mut writer = blobs.new_blob();
    assert_eq!(writer.write(b"hello "), 6);
    assert_eq!(writer.write(b"world"), 5);
    let id = blobs.insert(writer);
    let mut reader = blobs.read(id).ok().unwrap();
    assert_eq!(reader.read(4), b"hell".to_vec());
    assert_eq!(reader.read(100), b"o world".to_vec());
    assert_eq!(reader.read(100), Vec::<u8>::new());
    assert_eq!(blobs.delete(id), Ok(()));
    assert!(matches!(blobs.read(id), Err(BlobsReadError::NotFound)));
    assert_eq!(blobs.delete(id), Err(BlobsDeleteError::NotFound));
}

#[test]
fn memory_blobs_keep_each_blob() {
    let mut blobs = Blobs::new();
    let first = blobs.insert(blobs.new_blob());
    let mut writer = blobs.new_blob();
    writer.write(b"x");
    let second = blobs.insert(writer);
    assert_eq!(blobs.read(first).ok().unwrap().read(10), Vec::<u8>::new());
    assert_eq!(blobs.read(second).ok().unwrap().read(10), b"x".to_vec());
}

#[test]
fn blob_file_paths() {
    let id = Id::from_str("2bQFgyUNCCRUs8SitkgBG8L37KL1").unwrap();
    let blobs = FileBlobs::new("/var/blobs".to_string(), "tmp/".to_string());
    assert_eq!(blobs.blob_file(&id), "/var/blobs/2bQFgyUNCCRUs8SitkgBG8L37KL1");
    assert_eq!(blobs.tmp_file(&id), "tmp/2bQFgyUNCCRUs8SitkgBG8L37KL1");
    let bare = FileBlobs::new(String::new(), String::new());
    assert_eq!(bare.blob_file(&id), "2bQFgyUNCCRUs8SitkgBG8L37KL1");
}

#[test]
fn permissions_follow_the_logged_in_user() {
    let mut users = Users::new();
    let heidi = User {
        id: Id::from_str("2bQFgyUNCCRUs8SitkgBG8L37KL1").unwrap(),
        name: "Heidi".to_string(),
        handle: "heidi".to_string(),
        password: "p".to_string(),
    };
    let ivan = User {
        id: Id::from_str("3hbzu4vGorn5PdG3HtiW4UQe784R").unwrap(),
        name: "Ivan".to_string(),
        handle: "ivan".to_string(),
        password: "q".to_string(),
    };
    users.insert(heidi.clone()).unwrap();
    users.insert(ivan.clone()).unwrap();
    let as_heidi = Authentication::Authenticated { user: heidi.id };
    let nobody = Authentication::NotAuthenticated;
    assert!(permission::session_list(&as_heidi, &users));
    assert!(!permission::session_list(&nobody, &users));
    assert!(permission::user_read(&as_heidi, &users, &heidi));
    assert!(!permission::user_read(&as_heidi, &users, &ivan));
    assert!(permission::user_update(&as_heidi, &users, &heidi));
    assert!(!permission::user_update_password(&nobody, &users, &heidi));
    let unknown = Authentication::Authenticated {
        user: Id::from_str("3zCD548f6YU7163rZ84ZGamWkQM").unwrap(),
    };
    assert!(!permission::session_list(&unknown, &users));
}
