pub mod events;
pub mod handler;
pub mod json;
pub mod messages;
