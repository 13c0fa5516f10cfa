pub mod chat;
pub mod request;
pub mod transcript;
