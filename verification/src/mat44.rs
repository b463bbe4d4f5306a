//! The choice of rotation axis.
//!
//! Building the 4x4 rotation matrix for an axis and an angle, and
//! transforming points by it, is floating-point trigonometry and runs in
//! the front end; the axis the editor and the camera pick is plain data and
//! lives here.

use vstd::prelude::*;

verus! {

/// A choice of axis: X, Y or Z.
#[derive(Clone, Copy, Debug, PartialEq, Eq, Structural)]
pub enum Axis {
    /// The x axis.
    X,
    /// The y axis.
    Y,
    /// The z axis.
    Z,
}

} // verus!
