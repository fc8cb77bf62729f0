//! The namespaces of a restaurant: what happens in front of guests and what
//! happens in the kitchen. Every function here is a placeholder that
//! returns at once.
pub mod back_of_house;
pub mod front_of_house;
