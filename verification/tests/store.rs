use std::str::FromStr;

use photos::app_state::event::{DateEvent, Event};
use photos::app_state::log::memory;
use photos::app_state::store::files::{Upload, Uploads};
use photos::app_state::store::users::{InsertionError, UpdateError, User, Users};
use photos::app_state::store::Store;
use photos::app_state::{create_store_from_log, log_is_replayable, AppState};
use photos::common::authentication::Authentication;
use photos::common::date::Date;
use photos::common::file::Type;
use photos::common::id::Id;
use photos::server::make_admin_user_if_needed;

fn id(text: &str) -> Id {
    Id::from_str(text).unwrap()
}

fn at(secs: i64) -> Date {
    Date { secs, nanos: 0 }
}

fn user(user_id: &str, handle: &str) -> User {
    User {
        id: id(user_id),
        name: "Heidi".to_string(),
        handle: handle.to_string(),
        password: "eeQuee9t".to_string(),
    }
}

#[test]
fn users_insert_rejects_taken_handle_first() {
    let mut users = Users::new();
    let stored = users.insert(user("2bQFgyUNCCRUs8SitkgBG8L37KL1", "heidi")).unwrap();
    assert_eq!(stored.id, id("2bQFgyUNCCRUs8SitkgBG8L37KL1"));
    assert_eq!(stored.handle, "heidi");
    assert_eq!(stored.name, "Heidi");
    // Same identifier and same handle: the handle is reported.
    assert_eq!(
        users.insert(user("2bQFgyUNCCRUs8SitkgBG8L37KL1", "heidi")),
        Err(InsertionError::HandleExists)
    );
    assert_eq!(
        users.insert(user("2bQFgyUNCCRUs8SitkgBG8L37KL1", "other")),
        Err(InsertionError::IdExists)
    );
    assert_eq!(
        users.get_by_handle("heidi").unwrap().id,
        id("2bQFgyUNCCRUs8SitkgBG8L37KL1")
    );
    assert!(users.get_by_handle("other").is_none());
}

#[test]
fn users_update_keeps_the_creation_handle() {
    let mut users = Users::new();
    users.insert(user("2bQFgyUNCCRUs8SitkgBG8L37KL1", "heidi")).unwrap();
    let user_id = id("2bQFgyUNCCRUs8SitkgBG8L37KL1");
    assert_eq!(
        users.update(&user_id, "Heidi B".to_string(), "hb".to_string()),
        Ok(())
    );
    assert_eq!(users.get_by_id(&user_id).unwrap().handle, "hb");
    // The handle index still knows the user by the handle it was created with.
    assert_eq!(users.get_by_handle("heidi").unwrap().name, "Heidi B");
    assert!(users.get_by_handle("hb").is_none());
    assert_eq!(
        users.update_password(id("3zCD548f6YU7163rZ84ZGamWkQM"), "x".to_string()),
        Err(UpdateError::IdNotFound)
    );
    assert_eq!(users.update_password(user_id, "new".to_string()), Ok(()));
    assert_eq!(users.get_by_id(&user_id).unwrap().password, "new");
}

#[test]
fn store_applies_session_events() {
    let mut store = Store::new();
    let session_id = id("3zCD548f6YU7163rZ84ZGamWkQM");
    let user_id = id("2bQFgyUNCCRUs8SitkgBG8L37KL1");
    let events = vec![
        DateEvent { date: at(10), kind: Event::SessionCreate { session_id } },
        DateEvent {
            date: at(11),
            kind: Event::UserCreate {
                user_id,
                name: "Heidi".to_string(),
                handle: "heidi".to_string(),
                password: "eeQuee9t".to_string(),
            },
        },
        DateEvent { date: at(12), kind: Event::SessionLogin { session_id, user_id } },
        DateEvent { date: at(13), kind: Event::SessionPing { session_id } },
    ];
    for event in events {
        assert!(store.can_apply(&event));
        store.on_event(event);
    }
    let session = store.sessions.get(&session_id).unwrap();
    assert_eq!(session.last_ping, at(13));
    match session.authentication {
        Authentication::Authenticated { user } => assert_eq!(user, user_id),
        Authentication::NotAuthenticated => panic!("the session should be logged in"),
    }
    let logout = DateEvent { date: at(14), kind: Event::SessionLogout { session_id } };
    store.on_event(logout);
    assert!(store.sessions.get(&session_id).unwrap().authentication.get_user(&store.users).is_none());
    // Creating the session again, or pinging an unknown one, is refused.
    assert!(!store.can_apply(&DateEvent { date: at(15), kind: Event::SessionCreate { session_id } }));
    assert!(!store.can_apply(&DateEvent {
        date: at(15),
        kind: Event::SessionPing { session_id: user_id }
    }));
    assert_eq!(store.sessions.list().len(), 1);
}

#[test]
fn store_follows_a_photo_upload() {
    let mut store = Store::new();
    let file_id = id("FzXiG9uZVyTPn4NRQ3HGV6B3eCK");
    let photo_id = id("3hbzu4vGorn5PdG3HtiW4UQe784R");
    let blob_id = id("3wB4St9NzSaC4r6ouj56eyRku22n");
    let ready = DateEvent { date: at(3), kind: Event::FileReady { file_id, blob_id, size: 7 } };
    assert!(!store.can_apply(&ready));
    store.on_event(DateEvent {
        date: at(1),
        kind: Event::NewPhotoUpload { file_id, file_type: Type::Jpg, photo_id },
    });
    match store.files.get(&file_id).unwrap() {
        Upload::New { max_size, file_type, .. } => {
            assert_eq!(*max_size, 5_000_000);
            assert_eq!(*file_type, Type::Jpg);
        }
        _ => panic!("the file should be announced"),
    }
    assert!(!store.can_apply(&ready));
    store.on_event(DateEvent { date: at(2), kind: Event::FileUploadStart { file_id } });
    assert!(store.can_apply(&ready));
    store.on_event(ready);
    match store.files.get(&file_id).unwrap() {
        Upload::Ready { size, blob_id: stored, file_type, .. } => {
            assert_eq!(*size, 7);
            assert_eq!(*stored, blob_id);
            assert_eq!(*file_type, Type::Jpg);
        }
        _ => panic!("the file should be ready"),
    }
    assert!(store.photos.has_photo(&photo_id));
    assert!(store.photos.waiting_for(&file_id).is_none());
}

#[test]
fn log_replay_gives_back_the_store() {
    let mut state = AppState::new(memory::Log::new().into_writer()).into_app_request(at(100));
    let session_id = id("3zCD548f6YU7163rZ84ZGamWkQM");
    let user_id = id("2bQFgyUNCCRUs8SitkgBG8L37KL1");
    state.write(Event::SessionCreate { session_id });
    state.write(Event::UserCreate {
        user_id,
        name: "Heidi".to_string(),
        handle: "heidi".to_string(),
        password: "eeQuee9t".to_string(),
    });
    state.write(Event::SessionLogin { session_id, user_id });
    let state = state.into_app_state();
    let events = state.logged().clone();
    assert_eq!(events.len(), 3);
    assert!(log_is_replayable(&events));

    let mut reader = state.into_log().into_reader();
    let store = create_store_from_log(&mut reader);
    assert!(reader.poll_next().is_none());
    assert_eq!(store.users.get_by_handle("heidi").unwrap().id, user_id);
    let session = store.sessions.get(&session_id).unwrap();
    assert_eq!(session.last_ping, at(100));
    assert_eq!(
        session.authentication.get_user(&store.users).unwrap().id,
        user_id
    );
}

#[test]
fn log_replay_refuses_a_login_of_an_unknown_user() {
    let session_id = id("3zCD548f6YU7163rZ84ZGamWkQM");
    let events = vec![
        DateEvent { date: at(1), kind: Event::SessionCreate { session_id } },
        DateEvent {
            date: at(2),
            kind: Event::SessionLogin { session_id, user_id: id("2bQFgyUNCCRUs8SitkgBG8L37KL1") },
        },
    ];
    assert!(!log_is_replayable(&events));
    assert!(log_is_replayable(&events[..1].to_vec()));
}

#[test]
fn memory_log_reader_gives_events_in_order() {
    let mut writer = memory::Log::new().into_writer();
    let first = DateEvent { date: at(1), kind: Event::SessionCreate { session_id: id("3zCD548f6YU7163rZ84ZGamWkQM") } };
    let second = DateEvent { date: at(2), kind: Event::SessionPing { session_id: id("3zCD548f6YU7163rZ84ZGamWkQM") } };
    writer.write(&first);
    writer.write(&second);
    let mut reader = writer.into_log().into_reader();
    assert_eq!(reader.poll_next().unwrap().date, at(1));
    assert_eq!(reader.poll_next().unwrap().date, at(2));
    assert!(reader.poll_next().is_none());
    assert!(reader.poll_next().is_none());
    assert_eq!(reader.into_log().into_reader().poll_next().unwrap().date, at(1));
}

#[test]
fn uploads_start_registers_an_uploading_file() {
    let mut uploads = Uploads::new();
    let file_id = id("FzXiG9uZVyTPn4NRQ3HGV6B3eCK");
    let blob_id = id("3wB4St9NzSaC4r6ouj56eyRku22n");
    uploads.upload_start(file_id, Type::Png, at(5));
    match uploads.get(&file_id).unwrap() {
        Upload::Uploading { id: stored, file_type, date } => {
            assert_eq!(*stored, file_id);
            assert_eq!(*file_type, Type::Png);
            assert_eq!(*date, at(5));
        }
        _ => panic!("the file should be uploading"),
    }
    uploads.upload_finish(file_id, blob_id, 12);
    match uploads.get(&file_id).unwrap() {
        Upload::Ready { size, blob_id: stored, file_type, date, .. } => {
            assert_eq!(*size, 12);
            assert_eq!(*stored, blob_id);
            assert_eq!(*file_type, Type::Png);
            assert_eq!(*date, at(5));
        }
        _ => panic!("the file should be ready"),
    }
    assert!(uploads.get(&blob_id).is_none());
}

#[test]
fn admin_user_is_created_once() {
    let mut state = AppState::new(memory::Log::new().into_writer());
    make_admin_user_if_needed(&mut state);
    let admin = state.get_store().users.get_by_handle("admin").unwrap();
    assert_eq!(admin.name, "Admin User");
    assert_eq!(admin.password, "admin");
    assert_eq!(state.logged().len(), 1);
    make_admin_user_if_needed(&mut state);
    assert_eq!(state.logged().len(), 1);
}
