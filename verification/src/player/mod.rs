pub mod controls;
pub mod queue_manager;
pub mod types;
