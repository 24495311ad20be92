//! Composite interpolable value types.
//!
//! Each record interpolates member-wise: every field moves along its own
//! segment independently, so the result of interpolating a record is the
//! record of the interpolated fields. [`lemma_point_lerp_componentwise`]
//! states that rule once explicitly for the two-dimensional point.

use crate::lerp::Lerp;
use vstd::prelude::*;

verus! {

/// A point in two-dimensional space.
#[derive(Clone, Copy, PartialEq, Eq, Debug)]
pub struct Point<T> {
    /// Horizontal coordinate.
    pub x: T,
    /// Vertical coordinate.
    pub y: T,
}

/// A two-dimensional extent.
#[derive(Clone, Copy, PartialEq, Eq, Debug)]
pub struct Size<T> {
    /// Horizontal extent.
    pub width: T,
    /// Vertical extent.
    pub height: T,
}

/// Insets measured from the four edges of a rectangle.
#[derive(Clone, Copy, PartialEq, Eq, Debug)]
pub struct Edges<T> {
    /// Inset from the top edge.
    pub top: T,
    /// Inset from the right edge.
    pub right: T,
    /// Inset from the bottom edge.
    pub bottom: T,
    /// Inset from the left edge.
    pub left: T,
}

/// Values attached to the four corners of a rectangle.
#[derive(Clone, Copy, PartialEq, Eq, Debug)]
pub struct Corners<T> {
    /// Top-left corner.
    pub top_left: T,
    /// Top-right corner.
    pub top_right: T,
    /// Bottom-right corner.
    pub bottom_right: T,
    /// Bottom-left corner.
    pub bottom_left: T,
}

/// An axis-aligned rectangle: an origin and an extent.
#[derive(Clone, Copy, PartialEq, Eq, Debug)]
pub struct Bounds<T> {
    /// The corner the rectangle is measured from.
    pub origin: Point<T>,
    /// The extent of the rectangle.
    pub size: Size<T>,
}

/// A color with alpha, one byte per channel.
#[derive(Clone, Copy, PartialEq, Eq, Structural, Debug)]
pub struct Rgba {
    /// Red channel.
    pub r: u8,
    /// Green channel.
    pub g: u8,
    /// Blue channel.
    pub b: u8,
    /// Alpha channel.
    pub a: u8,
}

impl<T: Lerp> Lerp for Point<T> {
    open spec fn lerp_spec(self, to: Self, delta: int) -> Self {
        Point { x: self.x.lerp_spec(to.x, delta), y: self.y.lerp_spec(to.y, delta) }
    }

    fn lerp(&self, to: &Self, delta: u32) -> Self {
        Point { x: self.x.lerp(&to.x, delta), y: self.y.lerp(&to.y, delta) }
    }

    proof fn lerp_laws(a: Self, b: Self, delta: int) {
        T::lerp_laws(a.x, b.x, delta);
        T::lerp_laws(a.y, b.y, delta);
    }

    fn same(&self, other: &Self) -> bool {
        self.x.same(&other.x) && self.y.same(&other.y)
    }
}

impl<T: Lerp> Lerp for Size<T> {
    open spec fn lerp_spec(self, to: Self, delta: int) -> Self {
        Size {
            width: self.width.lerp_spec(to.width, delta),
            height: self.height.lerp_spec(to.height, delta),
        }
    }

    fn lerp(&self, to: &Self, delta: u32) -> Self {
        Size {
            width: self.width.lerp(&to.width, delta),
            height: self.height.lerp(&to.height, delta),
        }
    }

    proof fn lerp_laws(a: Self, b: Self, delta: int) {
        T::lerp_laws(a.width, b.width, delta);
        T::lerp_laws(a.height, b.height, delta);
    }

    fn same(&self, other: &Self) -> bool {
        self.width.same(&other.width) && self.height.same(&other.height)
    }
}

impl<T: Lerp> Lerp for Edges<T> {
    open spec fn lerp_spec(self, to: Self, delta: int) -> Self {
        Edges {
            top: self.top.lerp_spec(to.top, delta),
            right: self.right.lerp_spec(to.right, delta),
            bottom: self.bottom.lerp_spec(to.bottom, delta),
            left: self.left.lerp_spec(to.left, delta),
        }
    }

    fn lerp(&self, to: &Self, delta: u32) -> Self {
        Edges {
            top: self.top.lerp(&to.top, delta),
            right: self.right.lerp(&to.right, delta),
            bottom: self.bottom.lerp(&to.bottom, delta),
            left: self.left.lerp(&to.left, delta),
        }
    }

    proof fn lerp_laws(a: Self, b: Self, delta: int) {
        T::lerp_laws(a.top, b.top, delta);
        T::lerp_laws(a.right, b.right, delta);
        T::lerp_laws(a.bottom, b.bottom, delta);
        T::lerp_laws(a.left, b.left, delta);
    }

    fn same(&self, other: &Self) -> bool {
        self.top.same(&other.top) && self.right.same(&other.right)
            && self.bottom.same(&other.bottom) && self.left.same(&other.left)
    }
}

impl<T: Lerp> Lerp for Corners<T> {
    open spec fn lerp_spec(self, to: Self, delta: int) -> Self {
        Corners {
            top_left: self.top_left.lerp_spec(to.top_left, delta),
            top_right: self.top_right.lerp_spec(to.top_right, delta),
            bottom_right: self.bottom_right.lerp_spec(to.bottom_right, delta),
            bottom_left: self.bottom_left.lerp_spec(to.bottom_left, delta),
        }
    }

    fn lerp(&self, to: &Self, delta: u32) -> Self {
        Corners {
            top_left: self.top_left.lerp(&to.top_left, delta),
            top_right: self.top_right.lerp(&to.top_right, delta),
            bottom_right: self.bottom_right.lerp(&to.bottom_right, delta),
            bottom_left: self.bottom_left.lerp(&to.bottom_left, delta),
        }
    }

    proof fn lerp_laws(a: Self, b: Self, delta: int) {
        T::lerp_laws(a.top_left, b.top_left, delta);
        T::lerp_laws(a.top_right, b.top_right, delta);
        T::lerp_laws(a.bottom_right, b.bottom_right, delta);
        T::lerp_laws(a.bottom_left, b.bottom_left, delta);
    }

    fn same(&self, other: &Self) -> bool {
        self.top_left.same(&other.top_left) && self.top_right.same(&other.top_right)
            && self.bottom_right.same(&other.bottom_right)
            && self.bottom_left.same(&other.bottom_left)
    }
}

impl<T: Lerp> Lerp for Bounds<T> {
    open spec fn lerp_spec(self, to: Self, delta: int) -> Self {
        Bounds {
            origin: self.origin.lerp_spec(to.origin, delta),
            size: self.size.lerp_spec(to.size, delta),
        }
    }

    fn lerp(&self, to: &Self, delta: u32) -> Self {
        Bounds {
            origin: self.origin.lerp(&to.origin, delta),
            size: self.size.lerp(&to.size, delta),
        }
    }

    proof fn lerp_laws(a: Self, b: Self, delta: int) {
        Point::<T>::lerp_laws(a.origin, b.origin, delta);
        Size::<T>::lerp_laws(a.size, b.size, delta);
    }

    fn same(&self, other: &Self) -> bool {
        self.origin.same(&other.origin) && self.size.same(&other.size)
    }
}

impl Lerp for Rgba {
    open spec fn lerp_spec(self, to: Self, delta: int) -> Self {
        Rgba {
            r: self.r.lerp_spec(to.r, delta),
            g: self.g.lerp_spec(to.g, delta),
            b: self.b.lerp_spec(to.b, delta),
            a: self.a.lerp_spec(to.a, delta),
        }
    }

    fn lerp(&self, to: &Self, delta: u32) -> Self {
        Rgba {
            r: self.r.lerp(&to.r, delta),
            g: self.g.lerp(&to.g, delta),
            b: self.b.lerp(&to.b, delta),
            a: self.a.lerp(&to.a, delta),
        }
    }

    proof fn lerp_laws(a: Self, b: Self, delta: int) {
        u8::lerp_laws(a.r, b.r, delta);
        u8::lerp_laws(a.g, b.g, delta);
        u8::lerp_laws(a.b, b.b, delta);
        u8::lerp_laws(a.a, b.a, delta);
    }

    fn same(&self, other: &Self) -> bool {
        self.r == other.r && self.g == other.g && self.b == other.b && self.a == other.a
    }
}

/// Composite interpolation independence: interpolating a two-dimensional
/// point is the same as interpolating each coordinate on its own.
pub proof fn lemma_point_lerp_componentwise<T: Lerp>(a: Point<T>, b: Point<T>, delta: int)
    ensures
        a.lerp_spec(b, delta) == (Point {
            x: a.x.lerp_spec(b.x, delta),
            y: a.y.lerp_spec(b.y, delta),
        }),
{
}

} // verus!
