//! A small task registry: tasks with a name, a description, a priority and
//! a creation time, kept in insertion order and looked up by name.

pub mod timestamp;
pub mod task;
pub mod registry;
pub mod storage;
pub mod laws;
pub mod command;
