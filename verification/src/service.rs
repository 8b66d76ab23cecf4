//! The services behind the authoring, history and administration endpoints.

pub mod admin;
pub mod history;
pub mod suit;
