//! Values of the token transfer application.

pub mod denom;
