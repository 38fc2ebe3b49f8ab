pub mod common;
pub mod password;
pub mod user;
