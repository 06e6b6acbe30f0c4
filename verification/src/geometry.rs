//! Points, extents and rectangles in one coordinate domain.

use vstd::prelude::*;
use vstd::std_specs::convert::FromSpec;
use vstd::std_specs::ops::AddSpec;
use vstd::std_specs::ops::DivSpec;
use vstd::std_specs::ops::MulSpec;
use vstd::std_specs::ops::SubSpec;
use crate::scalar::cast_u32_to_usize;
use crate::scalar::MapDistance;
use crate::scalar::ScreenDistance;

verus! {

/// A point or an extent in one coordinate domain.
#[derive(Clone, Copy, Debug, PartialEq, Eq, Structural)]
pub struct Vector<T> {
    pub x: T,
    pub y: T,
}

impl<T> Vector<T> {
    /// The vector with the same components in the kind `U`, for a `U` that
    /// holds every value of `T`.
    pub fn cast<U: From<T>>(self) -> (r: Vector<U>)
        ensures
            U::obeys_from_spec() ==> r == (Vector { x: U::from_spec(self.x), y: U::from_spec(self.y) }),
    {
        Vector { x: U::from(self.x), y: U::from(self.y) }
    }
}

impl<T: core::ops::Div<Output = T>> Vector<T> {
    /// Each component of `self` divided by the same component of `rhs`.
    pub fn piecewise_divide(self, rhs: Vector<T>) -> (r: Vector<T>)
        requires
            self.x.div_req(rhs.x),
            self.y.div_req(rhs.y),
        ensures
            <T as DivSpec>::obeys_div_spec() ==> r == (Vector {
                x: self.x.div_spec(rhs.x),
                y: self.y.div_spec(rhs.y),
            }),
    {
        Vector { x: self.x / rhs.x, y: self.y / rhs.y }
    }
}

impl<T: core::ops::Mul<Output = T>> Vector<T> {
    /// Each component of `self` multiplied by the same component of `rhs`.
    pub fn piecewise_multiply(self, rhs: Vector<T>) -> (r: Vector<T>)
        requires
            self.x.mul_req(rhs.x),
            self.y.mul_req(rhs.y),
        ensures
            <T as MulSpec>::obeys_mul_spec() ==> r == (Vector {
                x: self.x.mul_spec(rhs.x),
                y: self.y.mul_spec(rhs.y),
            }),
    {
        Vector { x: self.x * rhs.x, y: self.y * rhs.y }
    }
}

impl<T: core::ops::Add<Output = T>> vstd::std_specs::ops::AddSpecImpl for Vector<T> {
    open spec fn obeys_add_spec() -> bool {
        <T as AddSpec>::obeys_add_spec()
    }

    open spec fn add_req(self, other: Vector<T>) -> bool {
        self.x.add_req(other.x) && self.y.add_req(other.y)
    }

    open spec fn add_spec(self, other: Vector<T>) -> Vector<T> {
        Vector { x: self.x.add_spec(other.x), y: self.y.add_spec(other.y) }
    }
}

impl<T: core::ops::Add<Output = T>> core::ops::Add for Vector<T> {
    type Output = Vector<T>;

    /// The sum, component by component.
    fn add(self, other: Vector<T>) -> (r: Vector<T>) {
        Vector { x: self.x + other.x, y: self.y + other.y }
    }
}

impl<T: core::ops::Sub<Output = T>> vstd::std_specs::ops::SubSpecImpl for Vector<T> {
    open spec fn obeys_sub_spec() -> bool {
        <T as SubSpec>::obeys_sub_spec()
    }

    open spec fn sub_req(self, other: Vector<T>) -> bool {
        self.x.sub_req(other.x) && self.y.sub_req(other.y)
    }

    open spec fn sub_spec(self, other: Vector<T>) -> Vector<T> {
        Vector { x: self.x.sub_spec(other.x), y: self.y.sub_spec(other.y) }
    }
}

impl<T: core::ops::Sub<Output = T>> core::ops::Sub for Vector<T> {
    type Output = Vector<T>;

    /// The difference, component by component.
    fn sub(self, other: Vector<T>) -> (r: Vector<T>) {
        Vector { x: self.x - other.x, y: self.y - other.y }
    }
}

impl<T: core::ops::Div<Output = T> + Copy> vstd::std_specs::ops::DivSpecImpl<T> for Vector<T> {
    open spec fn obeys_div_spec() -> bool {
        <T as DivSpec>::obeys_div_spec()
    }

    open spec fn div_req(self, rhs: T) -> bool {
        self.x.div_req(rhs) && self.y.div_req(rhs)
    }

    open spec fn div_spec(self, rhs: T) -> Vector<T> {
        Vector { x: self.x.div_spec(rhs), y: self.y.div_spec(rhs) }
    }
}

impl<T: core::ops::Div<Output = T> + Copy> core::ops::Div<T> for Vector<T> {
    type Output = Vector<T>;

    /// Both components divided by `rhs`.
    fn div(self, rhs: T) -> (r: Vector<T>) {
        Vector { x: self.x / rhs, y: self.y / rhs }
    }
}

impl Vector<MapDistance> {
    /// The vector as a pair of indices, or nothing where an index cannot hold
    /// a component.
    pub fn lossy_cast(self) -> (r: Option<Vector<usize>>)
        ensures
            r == (if self.x <= usize::MAX && self.y <= usize::MAX {
                Some(Vector { x: self.x as usize, y: self.y as usize })
            } else {
                None
            }),
    {
        match (cast_u32_to_usize(self.x), cast_u32_to_usize(self.y)) {
            (Some(x), Some(y)) => Some(Vector { x, y }),
            _ => None,
        }
    }
}

impl Vector<ScreenDistance> {
    /// What `lossy_cast` returns: the integer parts of the components, where
    /// both are tile counts.
    pub open spec fn lossy_cast_spec(self) -> Option<Vector<MapDistance>> {
        if 0 <= self.x.trunc_spec() <= MapDistance::MAX && 0 <= self.y.trunc_spec()
            <= MapDistance::MAX {
            Some(
                Vector {
                    x: self.x.trunc_spec() as MapDistance,
                    y: self.y.trunc_spec() as MapDistance,
                },
            )
        } else {
            None
        }
    }

    /// The vector in map space: the integer part of each component, or
    /// nothing where one of them is no tile count.
    pub fn lossy_cast(self) -> (r: Option<Vector<MapDistance>>)
        ensures
            r == self.lossy_cast_spec(),
    {
        match (self.x.lossy_cast(), self.y.lossy_cast()) {
            (Some(x), Some(y)) => Some(Vector { x, y }),
            _ => None,
        }
    }
}

/// A rectangle in one coordinate domain, by its corner nearest the origin and
/// its extent.
#[derive(Clone, Copy, Debug, PartialEq, Eq, Structural)]
pub struct Rectangle<T> {
    pub top_left: Vector<T>,
    pub size: Vector<T>,
}

impl<T: Copy> Rectangle<T> {
    /// The coordinate of the upper edge.
    pub fn top(&self) -> (r: T)
        ensures
            r == self.top_left.y,
    {
        self.top_left.y
    }

    /// The coordinate of the left edge.
    pub fn left(&self) -> (r: T)
        ensures
            r == self.top_left.x,
    {
        self.top_left.x
    }

    /// The horizontal extent.
    pub fn width(&self) -> (r: T)
        ensures
            r == self.size.x,
    {
        self.size.x
    }

    /// The vertical extent.
    pub fn height(&self) -> (r: T)
        ensures
            r == self.size.y,
    {
        self.size.y
    }
}

impl<T: Copy + core::ops::Add<Output = T>> Rectangle<T> {
    /// The coordinate just past the lower edge.
    pub fn bottom(&self) -> (r: T)
        requires
            self.top_left.y.add_req(self.size.y),
        ensures
            <T as AddSpec>::obeys_add_spec() ==> r == self.top_left.y.add_spec(self.size.y),
    {
        self.top() + self.height()
    }

    /// The coordinate just past the right edge.
    pub fn right(&self) -> (r: T)
        requires
            self.top_left.x.add_req(self.size.x),
        ensures
            <T as AddSpec>::obeys_add_spec() ==> r == self.top_left.x.add_spec(self.size.x),
    {
        self.left() + self.width()
    }
}

} // verus!
