pub mod session_create;
pub mod session_get;
pub mod session_list;
pub mod session_login;
pub mod session_logout;
pub mod session_ping;
pub mod user_get_full;
pub mod user_update;
pub mod user_update_password;
