//! Execution core of a browser-driven UI-test platform.
//!
//! The crate holds the rules of the platform as verified functions on plain
//! values: the ordering of blocks inside a suite, the walk over suites, cases
//! and action groups with its audit trail, and the planning of single browser
//! steps. Storage and the browser itself stay with the caller, which performs
//! what these functions ask for and hands the answers back.

pub mod audit;
pub mod clock;
pub mod controller;
pub mod entity;
pub mod error;
pub mod ident;
pub mod ordering;
pub mod paging;
pub mod service;
