//! Chain tags for test suites that run several chains side by side.
//!
//! A value that belongs to one chain is wrapped together with a marker type
//! that names the chain. The operations of a chain driver are then offered in
//! a form that accepts only values carrying the marker of the driver itself.

pub mod chain;
pub mod error;
pub mod ibc;
pub mod types;
