pub mod hello;
pub mod repository;
pub mod task;
pub mod timestamp;
