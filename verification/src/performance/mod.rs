//! Frame timing monitor and quality governor.

pub mod governor;
pub mod laws;
pub mod level;
pub mod monitor;
pub mod settings;
