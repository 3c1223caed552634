//! What the decoder hands back: a scene with a root, a scene without one,
//! or an error.

use vstd::prelude::*;
use crate::orientation::NodePose;

verus! {

/// The root of a decoded scene. Only a spatial root has a pose to correct.
#[derive(Clone, Copy, Debug, PartialEq, Eq, Structural)]
pub enum RootNode {
    Spatial(NodePose),
    Plain,
}

/// A decoded scene, owned by whoever holds this value.
#[derive(Clone, Copy, Debug, PartialEq, Eq, Structural)]
pub struct DecodedAsset {
    pub root: RootNode,
}

/// The decoder refused the payload, with its own error code.
#[derive(Clone, Copy, Debug, PartialEq, Eq, Structural)]
pub struct DecodeError {
    pub code: i64,
}

impl DecodeError {
    /// Reads the decoder's status code: zero is success, anything else is
    /// the error with that code.
    pub fn check(code: i64) -> (outcome: Result<(), DecodeError>)
        ensures
            code == 0 ==> outcome == Ok::<(), DecodeError>(()),
            code != 0 ==> outcome == Err::<(), DecodeError>(DecodeError { code }),
    {
        if code == 0 {
            Ok(())
        } else {
            Err(DecodeError { code })
        }
    }
}

} // verus!
