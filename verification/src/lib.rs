//! Availability/conflict engine and booking lifecycle state machine for
//! date-ranged rental inventory.
//!
//! The library arbitrates finite, date-ranged inventory across competing
//! booking requests and enforces a closed lifecycle for each booking.
//! Calendar dates are carried as day numbers (consecutive integers, one per
//! calendar day, e.g. Julian day numbers); identifiers are carried as plain
//! 128-bit integers; prices are carried in minor currency units. Callers that
//! work with richer date or identifier types convert at the boundary.

pub mod availability;
pub mod grouping;
pub mod listing;
pub mod model;
pub mod orchestrator;
pub mod state_machine;
