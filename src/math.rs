//! Small fixed-size vectors and matrices laid out as the shaders expect them.
use vstd::prelude::*;
use std::ops::Add;
use vstd::std_specs::ops::AddSpec;

verus! {

#[derive(Debug, PartialEq, Clone, Copy)]
pub struct Vector2<T> {
    pub x: T,
    pub y: T,
}

#[derive(Debug, PartialEq, Eq)]
pub struct Vector3<T> {
    pub x: T,
    pub y: T,
    pub z: T,
}

#[derive(Debug, PartialEq, Eq)]
pub struct Vector4<T> {
    pub x: T,
    pub y: T,
    pub z: T,
    pub w: T,
}

/// A 4x4 matrix stored column by column.
#[derive(Debug, PartialEq, Eq)]
pub struct Matrix4x4<T> {
    pub c0r0: T,
    pub c0r1: T,
    pub c0r2: T,
    pub c0r3: T,
    pub c1r0: T,
    pub c1r1: T,
    pub c1r2: T,
    pub c1r3: T,
    pub c2r0: T,
    pub c2r1: T,
    pub c2r2: T,
    pub c2r3: T,
    pub c3r0: T,
    pub c3r1: T,
    pub c3r2: T,
    pub c3r3: T,
}

impl<T: Add<Output = T>> Add<Vector2<T>> for Vector2<T> {
    type Output = Self;

    fn add(self, other: Self) -> Self::Output {
        Vector2 { x: self.x + other.x, y: self.y + other.y }
    }
}

impl<T: Add<Output = T>> vstd::std_specs::ops::AddSpecImpl<Vector2<T>> for Vector2<T> {
    open spec fn obeys_add_spec() -> bool {
        T::obeys_add_spec()
    }

    open spec fn add_req(self, other: Self) -> bool {
        self.x.add_req(other.x) && self.y.add_req(other.y)
    }

    open spec fn add_spec(self, other: Self) -> Self {
        Vector2 { x: self.x.add_spec(other.x), y: self.y.add_spec(other.y) }
    }
}

impl<T: Add<Output = T>> Add<Vector3<T>> for Vector3<T> {
    type Output = Self;

    fn add(self, other: Self) -> Self::Output {
        Vector3 { x: self.x + other.x, y: self.y + other.y, z: self.z + other.z }
    }
}

impl<T: Add<Output = T>> vstd::std_specs::ops::AddSpecImpl<Vector3<T>> for Vector3<T> {
    open spec fn obeys_add_spec() -> bool {
        T::obeys_add_spec()
    }

    open spec fn add_req(self, other: Self) -> bool {
        self.x.add_req(other.x) && self.y.add_req(other.y) && self.z.add_req(other.z)
    }

    open spec fn add_spec(self, other: Self) -> Self {
        Vector3 {
            x: self.x.add_spec(other.x),
            y: self.y.add_spec(other.y),
            z: self.z.add_spec(other.z),
        }
    }
}

impl<T: Add<Output = T>> Add<Vector4<T>> for Vector4<T> {
    type Output = Self;

    fn add(self, other: Self) -> Self::Output {
        Vector4 {
            x: self.x + other.x,
            y: self.y + other.y,
            z: self.z + other.z,
            w: self.w + other.w,
        }
    }
}

impl<T: Add<Output = T>> vstd::std_specs::ops::AddSpecImpl<Vector4<T>> for Vector4<T> {
    open spec fn obeys_add_spec() -> bool {
        T::obeys_add_spec()
    }

    open spec fn add_req(self, other: Self) -> bool {
        &&& self.x.add_req(other.x)
        &&& self.y.add_req(other.y)
        &&& self.z.add_req(other.z)
        &&& self.w.add_req(other.w)
    }

    open spec fn add_spec(self, other: Self) -> Self {
        Vector4 {
            x: self.x.add_spec(other.x),
            y: self.y.add_spec(other.y),
            z: self.z.add_spec(other.z),
            w: self.w.add_spec(other.w),
        }
    }
}

} // verus!
