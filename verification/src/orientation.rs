//! Coarse correction of a freshly decoded asset: a quarter turn about the
//! vertical axis, and a forced scale where the asset is absurdly small or
//! large. The correction looks at nothing but the root's own scale.

use vstd::prelude::*;
use crate::vector::{vec3, Vec3};

verus! {

/// A quarter turn, in millionths of a degree.
pub const QUARTER_TURN: i64 = 90_000_000;

/// A scale whose norm is below a tenth counts as too small.
pub const TOO_SMALL: i64 = 100_000;

/// A scale whose norm is above fifty counts as too large.
pub const TOO_LARGE: i64 = 50_000_000;

/// Where a node stands relative to its parent: its rotation about the
/// vertical axis in millionths of a degree, its scale and its position.
#[derive(Clone, Copy, Debug, PartialEq, Eq, Structural)]
pub struct NodePose {
    pub rotation_y: i64,
    pub scale: Vec3,
    pub position: Vec3,
}

/// The scale forced on an asset that is too small: ten along every axis.
pub open spec fn enlarged() -> Vec3 {
    vec3(10_000_000, 10_000_000, 10_000_000)
}

/// The scale forced on an asset that is too large: a tenth along every axis.
pub open spec fn reduced() -> Vec3 {
    vec3(100_000, 100_000, 100_000)
}

/// The scale after correction. The Euclidean norm `m` of the scale is
/// compared through its square, so the comparison is exact: `m < 0.1`
/// forces ten, `m > 50` forces a tenth, and anything between stays.
pub open spec fn corrected_scale(scale: Vec3) -> Vec3 {
    if scale@.norm_sq() < TOO_SMALL * TOO_SMALL {
        enlarged()
    } else if scale@.norm_sq() > TOO_LARGE * TOO_LARGE {
        reduced()
    } else {
        scale
    }
}

/// The pose after correction: a quarter turn more, the corrected scale,
/// the same position.
pub open spec fn corrected_pose(pose: NodePose) -> NodePose {
    NodePose {
        rotation_y: (pose.rotation_y + QUARTER_TURN) as i64,
        scale: corrected_scale(pose.scale),
        position: pose.position,
    }
}

/// Whatever the scale was, the norm of the corrected scale lies between a
/// tenth and fifty, bounds included.
pub proof fn lemma_corrected_scale_in_band(scale: Vec3)
    ensures
        TOO_SMALL * TOO_SMALL <= corrected_scale(scale)@.norm_sq() <= TOO_LARGE * TOO_LARGE,
{
    let up = enlarged()@;
    let down = reduced()@;
    assert(up.x == 10_000_000 && up.y == 10_000_000 && up.z == 10_000_000);
    assert(down.x == 100_000 && down.y == 100_000 && down.z == 100_000);
    assert(up.norm_sq() == 300_000_000_000_000) by (nonlinear_arith)
        requires
            up.x == 10_000_000 && up.y == 10_000_000 && up.z == 10_000_000,
            up.norm_sq() == up.x * up.x + up.y * up.y + up.z * up.z,
    ;
    assert(down.norm_sq() == 30_000_000_000) by (nonlinear_arith)
        requires
            down.x == 100_000 && down.y == 100_000 && down.z == 100_000,
            down.norm_sq() == down.x * down.x + down.y * down.y + down.z * down.z,
    ;
}

/// The square of the norm of `v`.
fn norm_sq(v: &Vec3) -> (n: u128)
    ensures
        n == v@.norm_sq(),
{
    let x: i128 = v.x as i128;
    let y: i128 = v.y as i128;
    let z: i128 = v.z as i128;
    assert(0 <= x * x <= 0x4000_0000_0000_0000_0000_0000_0000_0000) by (nonlinear_arith)
        requires
            -0x8000_0000_0000_0000 <= x <= 0x8000_0000_0000_0000,
    ;
    assert(0 <= y * y <= 0x4000_0000_0000_0000_0000_0000_0000_0000) by (nonlinear_arith)
        requires
            -0x8000_0000_0000_0000 <= y <= 0x8000_0000_0000_0000,
    ;
    assert(0 <= z * z <= 0x4000_0000_0000_0000_0000_0000_0000_0000) by (nonlinear_arith)
        requires
            -0x8000_0000_0000_0000 <= z <= 0x8000_0000_0000_0000,
    ;
    let xx: u128 = (x * x) as u128;
    let yy: u128 = (y * y) as u128;
    let zz: u128 = (z * z) as u128;
    xx + yy + zz
}

/// Corrects the orientation and the scale of a decoded root, in place.
/// Meant to be applied once to each asset: every application turns the
/// node by another quarter.
pub fn correct_model_orientation(node: &mut NodePose)
    requires
        old(node).rotation_y <= i64::MAX - QUARTER_TURN,
    ensures
        final(node).rotation_y == old(node).rotation_y + QUARTER_TURN,
        final(node).scale == corrected_scale(old(node).scale),
        final(node).position == old(node).position,
        *final(node) == corrected_pose(*old(node)),
{
    node.rotation_y = node.rotation_y + QUARTER_TURN;
    let m2: u128 = norm_sq(&node.scale);
    if m2 < 10_000_000_000 {
        node.scale = Vec3 { x: 10_000_000, y: 10_000_000, z: 10_000_000 };
    } else if m2 > 2_500_000_000_000_000 {
        node.scale = Vec3 { x: 100_000, y: 100_000, z: 100_000 };
    }
}

} // verus!
