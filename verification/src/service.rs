//! Services as the lifecycle manager sees them.

pub mod config;
