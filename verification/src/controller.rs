pub mod orders;
pub mod position;
