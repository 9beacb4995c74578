//! Rectangles with whole-pixel sides.

use vstd::prelude::*;

verus! {

/// A rectangle given by its two sides, in pixels.
#[derive(Clone, Copy, Debug, PartialEq, Eq, Structural)]
pub struct Rectangle {
    pub width: u32,
    pub height: u32,
}

impl Rectangle {
    /// The area as a mathematical integer: width times height, unbounded.
    pub open spec fn spec_area(&self) -> int {
        self.width * self.height
    }

    /// The area in square pixels.
    ///
    /// The product must fit the result type; a caller with unchecked sides
    /// tests this first.
    pub fn area(&self) -> (a: u32)
        requires
            self.spec_area() <= u32::MAX,
        ensures
            a == self.spec_area(),
    {
        self.width * self.height
    }

    /// Whether this rectangle covers strictly more area than `other`.
    ///
    /// The comparison is made on the exact products, so it is right for every
    /// pair of rectangles, also where an area exceeds `u32::MAX`.
    #[allow(non_snake_case)]
    pub fn isBiggerThan(&self, other: &Rectangle) -> (bigger: bool)
        ensures
            bigger == (self.spec_area() > other.spec_area()),
    {
        proof {
            lemma_product_fits_u64(self.width, self.height);
            lemma_product_fits_u64(other.width, other.height);
        }
        let mine: u64 = (self.width as u64) * (self.height as u64);
        let theirs: u64 = (other.width as u64) * (other.height as u64);
        mine > theirs
    }
}

/// The product of two 32-bit sides always fits in 64 bits.
proof fn lemma_product_fits_u64(a: u32, b: u32)
    ensures
        0 <= a * b <= u64::MAX,
{
    assert(0 <= a * b <= 0xffff_ffff * 0xffff_ffff) by (nonlinear_arith)
        requires
            0 <= a <= 0xffff_ffff,
            0 <= b <= 0xffff_ffff,
    ;
}

} // verus!
