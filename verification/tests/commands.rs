use std::str::FromStr;

use photos::app_state::event::Event;
use photos::app_state::log;
use photos::app_state::{AppRequest, AppState};
use photos::common::authentication::get_user;
use photos::common::id::Id;
use photos::routes::commands::{session_login, session_logout};

fn test_state() -> AppState {
    let log_writer = log::memory::Log::new();
    AppState::new(log_writer.into_writer())
}

fn base_state() -> AppRequest {
    let mut state = test_state().into_request_state_current_time();
    state.write(Event::SessionCreate {
        session_id: Id::from_str("3zCD548f6YU7163rZ84ZGamWkQM").unwrap(),
    });
    state.write(Event::UserCreate {
        user_id: Id::from_str("2bQFgyUNCCRUs8SitkgBG8L37KL1").unwrap(),
        handle: "heidi".to_string(),
        name: "Heidi".to_string(),
        password: "eeQuee9t".to_string(),
    });
    state.write(Event::SessionLogin {
        session_id: Id::from_str("3zCD548f6YU7163rZ84ZGamWkQM").unwrap(),
        user_id: Id::from_str("2bQFgyUNCCRUs8SitkgBG8L37KL1").unwrap(),
    });
    state
}

fn make_test_state() -> AppRequest {
    test_state().into_request_state_current_time()
}

#[test]
fn test_get_user() {
    let mut state = test_state().into_request_state_current_time();
    state.write(Event::SessionCreate {
        session_id: Id::from_str("3wB4St9NzSaC4r6ouj56eyRku22n").unwrap(),
    });
    state.write(Event::UserCreate {
        user_id: Id::from_str("2bQFgyUNCCRUs8SitkgBG8L37KL1").unwrap(),
        handle: "heidi".to_string(),
        name: "Heidi".to_string(),
        password: "eeQuee9t".to_string(),
    });
    state.write(Event::SessionLogin {
        session_id: Id::from_str("3wB4St9NzSaC4r6ouj56eyRku22n").unwrap(),
        user_id: Id::from_str("2bQFgyUNCCRUs8SitkgBG8L37KL1").unwrap(),
    });

    let store = state.get_store();
    let user = get_user(Some("Bearer 3wB4St9NzSaC4r6ouj56eyRku22n"), store).unwrap();

    assert_eq!(
        user.id,
        "2bQFgyUNCCRUs8SitkgBG8L37KL1".parse::<Id>().unwrap()
    );
}

#[test]
fn session_login_test_run_unknown_session() {
    let mut state = make_test_state();
    let session_id = Id::from_str("3zCD548f6YU7163rZ84ZGamWkQM").unwrap();
    let result = session_login::run(
        &mut state,
        session_login::Input {
            session_id,
            handle: "".to_string(),
            password: "".to_string(),
        },
    );
    assert_eq!(result, session_login::Output::SessionNotFound)
}

#[test]
fn test_run_bad_user() {
    let mut state = make_test_state();
    let session_id = Id::from_str("3zCD548f6YU7163rZ84ZGamWkQM").unwrap();
    state.write(Event::SessionCreate { session_id });
    let result = session_login::run(
        &mut state,
        session_login::Input {
            session_id,
            handle: "".to_string(),
            password: "".to_string(),
        },
    );
    assert_eq!(result, session_login::Output::AuthenticationFailed)
}

#[test]
fn test_run_bad_password() {
    let mut state = make_test_state();
    state.write(Event::SessionCreate {
        session_id: Id::from_str("3zCD548f6YU7163rZ84ZGamWkQM").unwrap(),
    });
    state.write(Event::UserCreate {
        user_id: Id::from_str("2bQFgyUNCCRUs8SitkgBG8L37KL1").unwrap(),
        handle: "heidi".to_string(),
        name: "Heidi".to_string(),
        password: "eeQuee9t".to_string(),
    });

    let result = session_login::run(
        &mut state,
        session_login::Input {
            session_id: Id::from_str("3zCD548f6YU7163rZ84ZGamWkQM").unwrap(),
            handle: "heidi".to_string(),
            password: "eeQuee9t".to_string(),
        },
    );
    assert_eq!(result, session_login::Output::Success)
}

#[test]
fn test_run_good_auth() {
    let mut state = make_test_state();
    let session_id = Id::from_str("3zCD548f6YU7163rZ84ZGamWkQM").unwrap();
    state.write(Event::SessionCreate { session_id });
    state.write(Event::UserCreate {
        user_id: Id::from_str("2bQFgyUNCCRUs8SitkgBG8L37KL1").unwrap(),
        handle: "heidi".to_string(),
        name: "Heidi".to_string(),
        password: "eeQuee9t".to_string(),
    });

    let result = session_login::run(
        &mut state,
        session_login::Input {
            session_id,
            handle: "heidi".to_string(),
            password: "eeQuee9t".to_string(),
        },
    );

    let store = state.get_store();

    assert_eq!(result, session_login::Output::Success);
    assert_eq!(
        store
            .sessions
            .get(&Id::from_str("3zCD548f6YU7163rZ84ZGamWkQM").unwrap())
            .unwrap()
            .authentication
            .get_user(&store.users)
            .unwrap()
            .id,
        Id::from_str("2bQFgyUNCCRUs8SitkgBG8L37KL1").unwrap()
    );
}

#[test]
fn session_logout_test_run_unknown_session() {
    let mut state = base_state();

    let result = session_logout::run(
        &mut state,
        session_logout::Input {
            session_id: Id::from_str("3hbzu4vGorn5PdG3HtiW4UQe784R").unwrap(),
        },
    );
    assert_eq!(result, session_logout::Output::SessionNotFound)
}

#[test]
fn session_logout_test_run_success() {
    let mut state = base_state();

    let result = session_logout::run(
        &mut state,
        session_logout::Input {
            session_id: Id::from_str("3zCD548f6YU7163rZ84ZGamWkQM").unwrap(),
        },
    );

    let store = state.get_store();

    assert_eq!(result, session_logout::Output::Success);
    assert!(store
        .sessions
        .get(&Id::from_str("3zCD548f6YU7163rZ84ZGamWkQM").unwrap())
        .unwrap()
        .authentication
        .get_user(&store.users)
        .is_none());
}
