//! Core logic of a meal-planning backend: nutrition-aware recipe filtering,
//! date-sequenced meal-plan construction, plan editing, and assembly of the
//! payloads sent to an external recommendation service.
//!
//! Database access and HTTP live outside this crate; every function here is a
//! pure computation over plain values and is verified.

pub mod allergy;
pub mod bridge;
pub mod date;
pub mod fetch;
pub mod nutrition;
pub mod plans;
pub mod reshape;
pub mod tables;
pub mod text;
