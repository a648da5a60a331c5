//! The values that tests pass around, and the tagged container for them.

pub mod id;
pub mod tagged;
pub mod wallet;
