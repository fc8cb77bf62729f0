//! Small data-type exercises: rectangles with an area and a containment
//! test, a message enum, user records with a builder, and a restaurant
//! namespace tree whose functions do nothing.
pub mod message;
pub mod rectangle;
pub mod restaurant;
pub mod user;
