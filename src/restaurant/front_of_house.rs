//! Work done where the guests are.
pub mod hosting;
pub mod serving;
