pub mod favorites;
pub mod history;
pub mod playback_position;
pub mod playlist;
pub mod queue;
pub mod search_history;
