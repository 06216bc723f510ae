//! Actions: work spread over several frames.
pub mod chain;
pub mod base;
pub mod tasks;
