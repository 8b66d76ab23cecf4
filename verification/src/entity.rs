//! The records of the platform, as plain values.

pub mod action;
pub mod attachment;
pub mod case;
pub mod data;
pub mod log;
pub mod request;
pub mod suite;
pub mod user;
