//! Work done in the kitchen.
pub mod cleaning;
pub mod cooking;
pub mod preparing;
