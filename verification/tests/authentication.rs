use photos::common::authentication::get_session_id;
use photos::common::id::Id;

#[test]
fn test_get_session_id() {
    let authorization = Some("Bearer 3wB4St9NzSaC4r6ouj56eyRku22n");

    assert_eq!(
        get_session_id(authorization),
        "3wB4St9NzSaC4r6ouj56eyRku22n".parse::<Id>().ok()
    );
}
