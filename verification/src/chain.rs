//! The driver of one running chain, and its tagged form.

pub mod driver;
pub mod tagged;
