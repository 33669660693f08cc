//! A small task tracker: tasks with a name, an optional due date and a
//! completion flag, addressed by their 1-based position in creation order.
pub mod date;
pub mod task;
pub mod report;
