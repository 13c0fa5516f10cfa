pub mod source;
pub mod types;
