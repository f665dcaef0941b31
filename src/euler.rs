use vstd::prelude::*;

verus! {

/// Order of Euler rotations.
///
/// For example, the XYZ order ([`Self::Xyz`]) means the rotation around the
/// local X axis is applied first, then Y, then Z.
#[derive(Debug, Clone, PartialEq, Eq, Structural)]
pub enum EulerOrder {
    Xyz,
    Xzy,
    Yxz,
    Yzx,
    Zxy,
    Zyx,
}

impl Default for EulerOrder {
    /// Returns the default order of Euler angles, which is XYZ.
    fn default() -> (r: Self)
        ensures
            r == EulerOrder::Xyz,
    {
        EulerOrder::Xyz
    }
}

} // verus!
