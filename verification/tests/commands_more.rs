use std::str::FromStr;

use photos::app_state::event::Event;
use photos::app_state::log::memory;
use photos::app_state::{AppRequest, AppState};
use photos::common::date::Date;
use photos::common::id::Id;
use photos::routes::command;
use photos::routes::commands::{
    session_create, session_get, session_list, session_ping, user_get_full, user_update,
    user_update_password,
};

fn id(text: &str) -> Id {
    Id::from_str(text).unwrap()
}

const SESSION: &str = "3zCD548f6YU7163rZ84ZGamWkQM";
const OTHER_SESSION: &str = "3wB4St9NzSaC4r6ouj56eyRku22n";
const HEIDI: &str = "2bQFgyUNCCRUs8SitkgBG8L37KL1";
const IVAN: &str = "3hbzu4vGorn5PdG3HtiW4UQe784R";

/// Heidi and Ivan; session SESSION is logged in as Heidi, OTHER_SESSION is
/// not logged in.
fn state() -> AppRequest {
    let mut state = AppState::new(memory::Log::new().into_writer())
        .into_app_request(Date { secs: 1000, nanos: 5 });
    state.write(Event::SessionCreate { session_id: id(SESSION) });
    state.write(Event::SessionCreate { session_id: id(OTHER_SESSION) });
    state.write(Event::UserCreate {
        user_id: id(HEIDI),
        handle: "heidi".to_string(),
        name: "Heidi".to_string(),
        password: "eeQuee9t".to_string(),
    });
    state.write(Event::UserCreate {
        user_id: id(IVAN),
        handle: "ivan".to_string(),
        name: "Ivan".to_string(),
        password: "secret".to_string(),
    });
    state.write(Event::SessionLogin { session_id: id(SESSION), user_id: id(HEIDI) });
    state
}

#[test]
fn session_create_opens_a_fresh_session() {
    let mut state = state();
    let session_create::Output::Success { session_id } =
        session_create::run(&mut state, session_create::Input {});
    assert!(session_id != id(SESSION) && session_id != id(OTHER_SESSION));
    let session = state.get_store().sessions.get(&session_id).unwrap();
    assert_eq!(session.last_ping, Date { secs: 1000, nanos: 5 });
    assert_eq!(state.get_store().sessions.list().len(), 3);
}

#[test]
fn session_get_answers_the_logged_in_user() {
    let state = state();
    match session_get::run(&state, session_get::Input { session_id: id(SESSION) }) {
        session_get::Output::Success(s) => {
            assert_eq!(s.token, id(SESSION));
            assert_eq!(s.auth_user, Some(id(HEIDI)));
        }
        session_get::Output::AccessDenied => panic!("the session exists"),
    }
    match session_get::run(&state, session_get::Input { session_id: id(OTHER_SESSION) }) {
        session_get::Output::Success(s) => assert_eq!(s.auth_user, None),
        session_get::Output::AccessDenied => panic!("the session exists"),
    }
    assert!(matches!(
        session_get::run(&state, session_get::Input { session_id: id(IVAN) }),
        session_get::Output::AccessDenied
    ));
}

#[test]
fn session_list_needs_a_logged_in_session() {
    let state = state();
    assert!(matches!(
        session_list::run(&state, session_list::Input { session_id: id(OTHER_SESSION) }),
        session_list::Output::AccessDenied
    ));
    assert!(matches!(
        session_list::run(&state, session_list::Input { session_id: id(IVAN) }),
        session_list::Output::AccessDenied
    ));
    match session_list::run(&state, session_list::Input { session_id: id(SESSION) }) {
        session_list::Output::Success(list) => {
            assert_eq!(list.len(), 2);
            let mine = list.iter().find(|s| s.token == id(SESSION)).unwrap();
            assert_eq!(mine.auth_user, Some("Heidi".to_string()));
            let other = list.iter().find(|s| s.token == id(OTHER_SESSION)).unwrap();
            assert_eq!(other.auth_user, None);
        }
        session_list::Output::AccessDenied => panic!("the session is logged in"),
    }
}

#[test]
fn session_ping_records_the_request_date() {
    let mut state = state();
    assert_eq!(
        session_ping::run(&mut state, session_ping::Input { session_id: id(IVAN) }),
        session_ping::Output::SessionNotFound
    );
    let mut later = state.into_app_state().into_app_request(Date { secs: 2000, nanos: 0 });
    assert_eq!(
        session_ping::run(&mut later, session_ping::Input { session_id: id(SESSION) }),
        session_ping::Output::Success
    );
    assert_eq!(
        later.get_store().sessions.get(&id(SESSION)).unwrap().last_ping,
        Date { secs: 2000, nanos: 0 }
    );
}

#[test]
fn user_get_full_only_for_oneself() {
    let state = state();
    match user_get_full::run(
        &state,
        user_get_full::Input { session_id: id(SESSION), user_id: id(HEIDI) },
    ) {
        user_get_full::Output::Success { id: user_id, name, handle } => {
            assert_eq!(user_id, id(HEIDI));
            assert_eq!(name, "Heidi");
            assert_eq!(handle, "heidi");
        }
        other => panic!("unexpected answer {:?}", other),
    }
    assert!(matches!(
        user_get_full::run(&state, user_get_full::Input { session_id: id(SESSION), user_id: id(IVAN) }),
        user_get_full::Output::AccessDenied
    ));
    assert!(matches!(
        user_get_full::run(&state, user_get_full::Input { session_id: id(OTHER_SESSION), user_id: id(HEIDI) }),
        user_get_full::Output::AccessDenied
    ));
    assert!(matches!(
        user_get_full::run(&state, user_get_full::Input { session_id: id(HEIDI), user_id: id(HEIDI) }),
        user_get_full::Output::SessionNotFound
    ));
    assert!(matches!(
        user_get_full::run(&state, user_get_full::Input { session_id: id(SESSION), user_id: id(SESSION) }),
        user_get_full::Output::UserNotFound
    ));
}

#[test]
fn user_update_password_only_for_oneself() {
    let mut state = state();
    let logged = state.into_app_state();
    let before = logged.logged().len();
    let mut state = logged.into_app_request(Date { secs: 1, nanos: 0 });
    assert_eq!(
        user_update_password::run(
            &mut state,
            user_update_password::Input {
                session_id: id(SESSION),
                user_id: id(IVAN),
                password: "x".to_string()
            }
        ),
        user_update_password::Output::AccessDenied
    );
    assert_eq!(
        user_update_password::run(
            &mut state,
            user_update_password::Input {
                session_id: id(SESSION),
                user_id: id(HEIDI),
                password: "new".to_string()
            }
        ),
        user_update_password::Output::Success
    );
    assert_eq!(state.get_store().users.get_by_id(&id(HEIDI)).unwrap().password, "new");
    assert_eq!(
        user_update_password::run(
            &mut state,
            user_update_password::Input {
                session_id: id(HEIDI),
                user_id: id(HEIDI),
                password: "x".to_string()
            }
        ),
        user_update_password::Output::SessionNotFound
    );
    assert_eq!(
        user_update_password::run(
            &mut state,
            user_update_password::Input {
                session_id: id(SESSION),
                user_id: id(SESSION),
                password: "x".to_string()
            }
        ),
        user_update_password::Output::UserNotFound
    );
    assert_eq!(state.get_store().users.get_by_id(&id(IVAN)).unwrap().password, "secret");
    assert_eq!(state.into_app_state().logged().len(), before + 1);
}

#[test]
fn user_update_changes_name_and_password_but_not_handle() {
    let mut state = state();
    assert_eq!(
        user_update::run(
            &mut state,
            user_update::Input {
                session_id: id(SESSION),
                user_id: id(HEIDI),
                user_name: "Heidi B".to_string(),
                user_handle: "hb".to_string(),
                user_password: "pw".to_string(),
            }
        ),
        user_update::Output::Success
    );
    let heidi = state.get_store().users.get_by_id(&id(HEIDI)).unwrap();
    assert_eq!(heidi.name, "Heidi B");
    assert_eq!(heidi.handle, "heidi");
    assert_eq!(heidi.password, "pw");
    assert_eq!(
        user_update::run(
            &mut state,
            user_update::Input {
                session_id: id(OTHER_SESSION),
                user_id: id(HEIDI),
                user_name: "x".to_string(),
                user_handle: "x".to_string(),
                user_password: "x".to_string(),
            }
        ),
        user_update::Output::AccessDenied
    );
}

#[test]
fn command_dispatch_answers_in_kind() {
    let mut state = state();
    match command::run(
        &mut state,
        command::Input::Logout(photos::routes::commands::session_logout::Input {
            session_id: id(SESSION),
        }),
    ) {
        command::Output::Logout(out) => {
            assert_eq!(out, photos::routes::commands::session_logout::Output::Success)
        }
        _ => panic!("a logout is answered as a logout"),
    }
    assert!(matches!(
        command::run(
            &mut state,
            command::Input::SessionList(session_list::Input { session_id: id(SESSION) })
        ),
        command::Output::SessionList(session_list::Output::AccessDenied)
    ));
}
