use vstd::prelude::*;

verus! {

/// An axis-aligned rectangle measured in whole pixels.
#[derive(Debug, Clone, Copy, PartialEq, Eq, Structural)]
pub struct Rectangle {
    pub width: u32,
    pub length: u32,
}

impl Rectangle {
    /// The mathematical area: the product of the two sides, unbounded.
    pub open spec fn spec_area(&self) -> int {
        self.width * self.length
    }

    /// Whether the area fits the machine integer that `area` returns.
    pub open spec fn area_fits(&self) -> bool {
        self.spec_area() <= u32::MAX
    }

    /// The area of the rectangle.
    pub fn area(&self) -> (a: u32)
        requires
            self.area_fits(),
        ensures
            a == self.spec_area(),
    {
        self.width * self.length
    }

    /// Whether the rectangle has a nonzero width.
    pub fn width(&self) -> (nonzero: bool)
        ensures
            nonzero == (self.width > 0),
    {
        self.width > 0
    }
}

/// The area of `rectangle`, as a free function.
pub fn area(rectangle: &Rectangle) -> (a: u32)
    requires
        rectangle.area_fits(),
    ensures
        a == rectangle.spec_area(),
{
    assert(rectangle.length * rectangle.width == rectangle.width * rectangle.length)
        by (nonlinear_arith);
    rectangle.length * rectangle.width
}

/// The area does not depend on which side is called the width.
pub proof fn lemma_area_symmetric(r: Rectangle)
    ensures
        r.spec_area() == (Rectangle { width: r.length, length: r.width }).spec_area(),
{
    assert(r.width * r.length == r.length * r.width) by (nonlinear_arith);
}

/// A rectangle has zero area exactly when one of its sides is zero.
pub proof fn lemma_area_zero(r: Rectangle)
    ensures
        r.spec_area() == 0 <==> (r.width == 0 || r.length == 0),
{
    let w: int = r.width as int;
    let l: int = r.length as int;
    assert(w * l == 0 <==> (w == 0 || l == 0)) by (nonlinear_arith)
        requires
            w >= 0,
            l >= 0,
    ;
}

} // verus!
