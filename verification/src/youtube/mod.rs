pub mod types;
pub mod ytdlp;
