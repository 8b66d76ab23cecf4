//! The dispatchers of a run, leaves first: the action executor, the case
//! dispatcher and the suite dispatcher.
//!
//! Each of them decides; the caller acts. A dispatcher says which rows to
//! load and what to send to the browser, the caller does so and hands back
//! what came of it, and the dispatcher decides on.

pub mod action;
pub mod case;
pub mod suite;
