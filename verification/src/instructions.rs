pub mod admin;
pub mod fill;
pub mod user;
