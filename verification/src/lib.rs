pub mod commands;
pub mod orchestrator;
pub mod records;
pub mod window;
