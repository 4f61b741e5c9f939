use std::str::FromStr;

use photos::app_state::event::Event;
use photos::app_state::log::memory;
use photos::app_state::{AppRequest, AppState};
use photos::common::file::Type;
use photos::common::id::Id;
use photos::routes::upload::{check_body, finish_upload, start_upload, Output};

const FILE: &str = "FzXiG9uZVyTPn4NRQ3HGV6B3eCK";

fn base_state() -> AppRequest {
    let mut state = AppState::new(memory::Log::new().into_writer()).into_request_state_current_time();
    state.write(Event::SessionCreate {
        session_id: Id::from_str("3zCD548f6YU7163rZ84ZGamWkQM").unwrap(),
    });
    state
}

fn announced_state() -> AppRequest {
    let mut state = base_state();
    state.write(Event::NewPhotoUpload {
        file_id: Id::from_str(FILE).unwrap(),
        file_type: Type::Jpg,
        photo_id: Id::from_str("3hbzu4vGorn5PdG3HtiW4UQe784R").unwrap(),
    });
    state
}

#[test]
fn test_run_invalid_id() {
    let mut state = base_state();
    assert_eq!(
        start_upload(&mut state, "asdf", Some("image/jpeg")).err(),
        Some(Output::InvalidId)
    );
}

#[test]
fn test_run_invalid_mime_type() {
    let mut state = base_state();
    assert_eq!(
        start_upload(&mut state, FILE, Some("asdf")).err(),
        Some(Output::InvalidMimeType)
    );
}

#[test]
fn test_run_non_existing() {
    let mut state = base_state();
    assert_eq!(
        start_upload(&mut state, FILE, Some("image/jpeg")).err(),
        Some(Output::NotFound)
    );
}

#[test]
fn upload_of_announced_file() {
    let mut state = announced_state();
    assert_eq!(
        start_upload(&mut state, FILE, Some("image/png")).err(),
        Some(Output::WrongFileType)
    );
    let target = start_upload(&mut state, FILE, Some("image/jpeg")).ok().unwrap();
    assert_eq!(target.file_id, Id::from_str(FILE).unwrap());
    assert_eq!(target.max_size, 5_000_000);
    assert_eq!(
        start_upload(&mut state, FILE, Some("image/jpeg")).err(),
        Some(Output::AlreadyUploading)
    );
    let blob_id = Id::new();
    assert_eq!(finish_upload(&mut state, target.file_id, blob_id, 4), Output::Success);
    assert_eq!(
        start_upload(&mut state, FILE, Some("image/jpeg")).err(),
        Some(Output::AlreadyUploaded)
    );
}

#[test]
fn upload_body_checks() {
    assert_eq!(check_body(Some(5_000_001), 5_000_000), Err(Output::TooLarge));
    assert_eq!(check_body(Some(5_000_000), 5_000_000), Ok(5_000_000));
    assert_eq!(check_body(Some(0), 5_000_000), Ok(0));
    assert_eq!(check_body(None, 5_000_000), Err(Output::FileUploadError));
}
