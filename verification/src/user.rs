pub mod args;
pub mod cipher;
pub mod data;
pub mod error;
