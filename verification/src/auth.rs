pub mod challenge;
pub mod data;
pub mod hashes;
pub mod keep_alive;
pub mod login;
pub mod packet;
