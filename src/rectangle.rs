//! A rectangle with unsigned dimensions, its area, and whether one
//! rectangle fits strictly inside another.
use vstd::prelude::*;

verus! {

/// A rectangle given by its width and height.
#[derive(Debug, Clone, Copy, PartialEq, Eq, Structural)]
pub struct Rectangle {
    pub width: u32,
    pub height: u32,
}

/// The area of a `width` by `height` rectangle.
pub open spec fn area_of(width: nat, height: nat) -> nat {
    width * height
}

/// Whether a rectangle of `outer_w` by `outer_h` holds one of `inner_w` by
/// `inner_h`: both dimensions must be strictly larger.
pub open spec fn holds(outer_w: nat, outer_h: nat, inner_w: nat, inner_h: nat) -> bool {
    outer_w > inner_w && outer_h > inner_h
}

impl Rectangle {
    /// The area of this rectangle, as a mathematical integer.
    pub open spec fn spec_area(&self) -> nat {
        area_of(self.width as nat, self.height as nat)
    }

    /// Whether this rectangle strictly holds `other`.
    pub open spec fn spec_can_hold(&self, other: &Rectangle) -> bool {
        holds(self.width as nat, self.height as nat, other.width as nat, other.height as nat)
    }

    /// The area, `width * height`; the product must fit in a `u32`.
    pub fn area(&self) -> (r: u32)
        requires
            self.spec_area() <= u32::MAX,
        ensures
            r as nat == self.spec_area(),
    {
        self.width * self.height
    }

    /// Whether this rectangle is strictly wider and strictly taller than `other`.
    pub fn can_hold(&self, other: &Rectangle) -> (r: bool)
        ensures
            r == self.spec_can_hold(other),
    {
        self.width > other.width && self.height > other.height
    }
}

/// The area of `rectangle`, computed outside its methods; the product must
/// fit in a `u32`.
pub fn area(rectangle: &Rectangle) -> (r: u32)
    requires
        rectangle.spec_area() <= u32::MAX,
    ensures
        r as nat == rectangle.spec_area(),
{
    rectangle.width * rectangle.height
}

/// No rectangle holds itself, and containment never goes both ways: if `a`
/// holds `b`, then `b` does not hold `a`.
pub proof fn lemma_can_hold_strict(a: Rectangle, b: Rectangle)
    ensures
        !a.spec_can_hold(&a),
        a.spec_can_hold(&b) ==> !b.spec_can_hold(&a),
{
}

} // verus!
