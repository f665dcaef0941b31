use vstd::prelude::*;

verus! {

/// 3D vector for quantities such as 3D points and 3D directions, with its
/// components stored in the order x, y, z.
///
/// A tuple or an array of three components converts to a vector with `.into()`.
#[derive(Debug, Clone, Copy, Default, PartialEq, Eq)]
pub struct Vector3<T> {
    /// The x component.
    pub x: T,
    /// The y component.
    pub y: T,
    /// The z component.
    pub z: T,
}

impl<T> Vector3<T> {
    /// Sets the components of this vector.
    pub fn set(&mut self, x: T, y: T, z: T)
        ensures
            *final(self) == (Vector3 { x, y, z }),
    {
        self.x = x;
        self.y = y;
        self.z = z;
    }
}

impl<T> From<(T, T, T)> for Vector3<T> {
    fn from(tuple: (T, T, T)) -> (r: Self)
        ensures
            r == (Vector3 { x: tuple.0, y: tuple.1, z: tuple.2 }),
    {
        Vector3 { x: tuple.0, y: tuple.1, z: tuple.2 }
    }
}

impl<T> vstd::std_specs::convert::FromSpecImpl<(T, T, T)> for Vector3<T> {
    open spec fn obeys_from_spec() -> bool {
        true
    }

    open spec fn from_spec(tuple: (T, T, T)) -> Self {
        Vector3 { x: tuple.0, y: tuple.1, z: tuple.2 }
    }
}

impl<T: Copy> From<[T; 3]> for Vector3<T> {
    fn from(array: [T; 3]) -> (r: Self)
        ensures
            r == (Vector3 { x: array@[0], y: array@[1], z: array@[2] }),
    {
        Vector3 { x: array[0], y: array[1], z: array[2] }
    }
}

impl<T: Copy> vstd::std_specs::convert::FromSpecImpl<[T; 3]> for Vector3<T> {
    open spec fn obeys_from_spec() -> bool {
        true
    }

    open spec fn from_spec(array: [T; 3]) -> Self {
        Vector3 { x: array@[0], y: array@[1], z: array@[2] }
    }
}

} // verus!
