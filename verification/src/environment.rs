//! Which kind of display the host runs on, decided from one look at its
//! primary display interface.

use vstd::prelude::*;

verus! {

/// The context a load session runs in.
#[derive(Clone, Copy, Debug, PartialEq, Eq, Structural)]
pub enum EnvironmentMode {
    Desktop,
    Immersive,
}

/// What the host reports of its primary immersive-display interface at one
/// instant.
#[derive(Clone, Copy, Debug, PartialEq, Eq, Structural)]
pub enum PrimaryInterface {
    /// No interface is registered as primary.
    Absent,
    /// An interface is registered; it says whether it is initialized.
    Registered { initialized: bool },
}

/// Immersive exactly when an interface is registered and initialized.
pub open spec fn mode_of(primary: PrimaryInterface) -> EnvironmentMode {
    match primary {
        PrimaryInterface::Registered { initialized: true } => EnvironmentMode::Immersive,
        _ => EnvironmentMode::Desktop,
    }
}

/// Decides the mode from a snapshot of the host. The host may answer
/// differently a moment later, so a session takes one snapshot and keeps
/// its verdict.
pub fn detect(primary: PrimaryInterface) -> (mode: EnvironmentMode)
    ensures
        mode == mode_of(primary),
        mode == EnvironmentMode::Immersive <==> primary == (PrimaryInterface::Registered {
            initialized: true,
        }),
{
    match primary {
        PrimaryInterface::Registered { initialized } => {
            if initialized {
                EnvironmentMode::Immersive
            } else {
                EnvironmentMode::Desktop
            }
        },
        PrimaryInterface::Absent => EnvironmentMode::Desktop,
    }
}

} // verus!
