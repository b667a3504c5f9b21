pub mod auth;
pub mod constants;
pub mod digits;
