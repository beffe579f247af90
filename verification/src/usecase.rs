pub mod hello;
pub mod task;
