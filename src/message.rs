//! A message that is exactly one of four shapes, each with its own payload.
use vstd::prelude::*;

verus! {

/// One of four messages: no payload, a named pair of coordinates, a text,
/// or three colour components.
pub enum Message {
    Quit,
    Move { x: i32, y: i32 },
    Write(String),
    ChangeColor(i32, i32, i32),
}

impl Message {
    /// Handles the message. Handling is a placeholder: every variant returns
    /// at once, and the message is only borrowed, so it stays as it was.
    pub fn call(&self) {
    }
}

} // verus!
