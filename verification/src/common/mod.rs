pub mod authentication;
pub mod date;
pub mod file;
pub mod http;
pub mod id;
pub mod id_map;
pub mod text;
pub mod token;
pub mod utils;
