pub mod handler;
pub mod post;
pub mod store;
