//! A weekly task planner: seven named days, each with a list of pending tasks
//! and a list of completed ones, driven by keyboard commands and saved to a
//! structured record.
pub mod selection;
pub mod list;
pub mod model;
pub mod record;
pub mod controller;
