pub mod handler;
pub mod message;
pub mod status;
