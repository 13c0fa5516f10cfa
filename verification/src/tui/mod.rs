pub mod app;
pub mod hints;
pub mod keys;
pub mod lyrics;
