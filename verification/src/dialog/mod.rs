pub mod desktop;
pub mod file;
pub mod message;
pub mod share;
pub mod state;
