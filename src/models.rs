pub mod request;
pub mod state;
pub mod user;
