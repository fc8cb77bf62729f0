//! Cleaning up.
use vstd::prelude::*;

verus! {

/// Placeholder: returns at once and changes nothing.
pub fn clean_dishes() {
}

/// Placeholder: returns at once and changes nothing.
pub fn clean_floor() {
}

} // verus!
