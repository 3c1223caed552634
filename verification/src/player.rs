//! The desktop locomotion controller: a rig moved by four direction keys
//! and turned by two rotation keys.

use vstd::prelude::*;
use crate::units::{
    diagonal_share, div_toward_zero, integer_sqrt, lemma_isqrt_bound, lemma_product_bound,
    lemma_trunc_div_bound, lemma_trunc_div_multiple, mul_scaled, trunc_div, FACTOR_LIMIT, ONE,
    PRODUCT_LIMIT,
};
use crate::vector::{unrotated, Basis, MathVec3, Vec3, WORLD_LIMIT};

verus! {

/// Which of the six named actions are pressed during a tick.
#[derive(Clone, Copy, Debug, PartialEq, Eq, Structural)]
pub struct DesktopInput {
    pub move_forward: bool,
    pub move_backward: bool,
    pub move_left: bool,
    pub move_right: bool,
    pub rotate_left: bool,
    pub rotate_right: bool,
}

/// The six actions that the controller reads.
#[derive(Clone, Copy, Debug, PartialEq, Eq, Structural)]
pub enum Action {
    MoveForward,
    MoveBackward,
    MoveLeft,
    MoveRight,
    RotateLeft,
    RotateRight,
}

/// The name under which the host's input map knows an action.
pub open spec fn action_name(action: Action) -> Seq<char> {
    match action {
        Action::MoveForward => "move_forward"@,
        Action::MoveBackward => "move_backward"@,
        Action::MoveLeft => "move_left"@,
        Action::MoveRight => "move_right"@,
        Action::RotateLeft => "rotate_left"@,
        Action::RotateRight => "rotate_right"@,
    }
}

/// Whether the input has the action pressed.
pub open spec fn has_pressed(input: DesktopInput, action: Action) -> bool {
    match action {
        Action::MoveForward => input.move_forward,
        Action::MoveBackward => input.move_backward,
        Action::MoveLeft => input.move_left,
        Action::MoveRight => input.move_right,
        Action::RotateLeft => input.rotate_left,
        Action::RotateRight => input.rotate_right,
    }
}

/// Where the follow camera sits relative to the rig, and how far it is
/// tilted about its horizontal axis, in millionths of a radian.
#[derive(Clone, Copy, Debug, PartialEq, Eq, Structural)]
pub struct CameraMount {
    pub position: Vec3,
    pub pitch: i32,
}

/// The state of the desktop rig. Speeds are per second; `yaw` is the sum of
/// all turns made so far, in the angle unit of `rotation_speed`.
#[derive(Clone, Copy, Debug, PartialEq, Eq, Structural)]
pub struct Player3D {
    pub speed: i32,
    pub rotation_speed: i32,
    pub camera_distance: i32,
    pub camera_height: i32,
    pub position: Vec3,
    pub yaw: i64,
}

/// One for a pressed action, zero for a released one.
pub open spec fn pressed(action: bool) -> int {
    if action {
        1
    } else {
        0
    }
}

/// The movement wanted along the rig's right axis: -1, 0 or 1.
pub open spec fn intent_x(input: DesktopInput) -> int {
    pressed(input.move_right) - pressed(input.move_left)
}

/// The movement wanted along the rig's backward axis: -1, 0 or 1. Moving
/// forward is moving against that axis.
pub open spec fn intent_z(input: DesktopInput) -> int {
    pressed(input.move_backward) - pressed(input.move_forward)
}

/// The rotation wanted: -1, 0 or 1.
pub open spec fn turn_intent(input: DesktopInput) -> int {
    pressed(input.rotate_right) - pressed(input.rotate_left)
}

/// The length of one tick's step: speed times elapsed time.
pub open spec fn step_length(speed: int, delta: int) -> int {
    trunc_div(speed * delta, ONE as int)
}

/// The step in the rig's own frame. The intent is brought to unit length
/// and scaled by the step length: along a single axis the whole step falls
/// on that axis, on a diagonal each axis gets the diagonal share.
pub open spec fn local_step(input: DesktopInput, speed: int, delta: int) -> MathVec3 {
    let d = step_length(speed, delta);
    let share = if intent_x(input) != 0 && intent_z(input) != 0 {
        diagonal_share(d)
    } else {
        d
    };
    MathVec3 { x: intent_x(input) * share, y: 0, z: intent_z(input) * share }
}

/// A step of the rig's frame carried into the parent's frame: the local
/// `x` runs along the basis' right axis, the local `z` along its backward
/// axis.
pub open spec fn world_step(basis: Basis, local: MathVec3) -> MathVec3 {
    MathVec3 {
        x: trunc_div(basis.col_c.x * local.z + basis.col_a.x * local.x, ONE as int),
        y: trunc_div(basis.col_c.y * local.z + basis.col_a.y * local.x, ONE as int),
        z: trunc_div(basis.col_c.z * local.z + basis.col_a.z * local.x, ONE as int),
    }
}

/// The angle turned in one tick.
pub open spec fn turn_step(input: DesktopInput, rotation_speed: int, delta: int) -> int {
    trunc_div(turn_intent(input) * rotation_speed * delta, ONE as int)
}

/// Without a wish to move the step is zero, whatever the speed, the frame
/// and the time elapsed. That is so when no direction is pressed and when
/// opposite directions are pressed together.
pub proof fn lemma_no_intent_no_step(input: DesktopInput, basis: Basis, speed: int, delta: int)
    requires
        intent_x(input) == 0,
        intent_z(input) == 0,
    ensures
        world_step(basis, local_step(input, speed, delta)) == (MathVec3 { x: 0, y: 0, z: 0 }),
{
    let local = local_step(input, speed, delta);
    assert(local.x == 0 && local.z == 0) by (nonlinear_arith)
        requires
            local.x == intent_x(input) * step_length(speed, delta),
            local.z == intent_z(input) * step_length(speed, delta),
            intent_x(input) == 0,
            intent_z(input) == 0,
    ;
    assert(basis.col_c.x * local.z + basis.col_a.x * local.x == 0 && basis.col_c.y * local.z
        + basis.col_a.y * local.x == 0 && basis.col_c.z * local.z + basis.col_a.z * local.x == 0)
        by (nonlinear_arith)
        requires
            local.x == 0 && local.z == 0,
    ;
}

/// Without a wish to turn the turn is zero.
pub proof fn lemma_no_intent_no_turn(input: DesktopInput, rotation_speed: int, delta: int)
    requires
        turn_intent(input) == 0,
    ensures
        turn_step(input, rotation_speed, delta) == 0,
{
    assert(turn_intent(input) * rotation_speed * delta == 0) by (nonlinear_arith)
        requires
            turn_intent(input) == 0,
    ;
}

/// In one whole second a rig covers exactly its speed.
pub proof fn lemma_step_of_one_second(speed: int)
    ensures
        step_length(speed, ONE as int) == speed,
{
    lemma_trunc_div_multiple(speed, ONE as int);
}

/// With only the forward action pressed, a rig whose frame is not rotated
/// advances by exactly the step length against its backward axis, and
/// does not turn.
pub proof fn lemma_forward_only(input: DesktopInput, speed: int, rotation_speed: int, delta: int)
    requires
        input.move_forward,
        !input.move_backward && !input.move_left && !input.move_right,
        !input.rotate_left && !input.rotate_right,
    ensures
        world_step(unrotated(), local_step(input, speed, delta)) == (MathVec3 {
            x: 0,
            y: 0,
            z: -step_length(speed, delta),
        }),
        turn_step(input, rotation_speed, delta) == 0,
{
    let d = step_length(speed, delta);
    let local = local_step(input, speed, delta);
    assert(local.x == 0 && local.z == -d) by (nonlinear_arith)
        requires
            local.x == intent_x(input) * d,
            local.z == intent_z(input) * d,
            intent_x(input) == 0,
            intent_z(input) == -1,
    ;
    let basis = unrotated();
    assert(basis.col_c.x * local.z + basis.col_a.x * local.x == 0 && basis.col_c.y * local.z
        + basis.col_a.y * local.x == 0 && basis.col_c.z * local.z + basis.col_a.z * local.x == (
    -d) * ONE) by (nonlinear_arith)
        requires
            local.x == 0 && local.z == -d,
            basis.col_c.x == 0 && basis.col_c.y == 0 && basis.col_c.z == 1_000_000,
            basis.col_a.x == 1_000_000 && basis.col_a.y == 0 && basis.col_a.z == 0,
            ONE == 1_000_000,
    ;
    lemma_trunc_div_multiple(-d, ONE as int);
    lemma_no_intent_no_turn(input, rotation_speed, delta);
}

/// `a * p + b * q` in millionths, rounded toward zero.
fn blend(a: i32, p: i64, b: i32, q: i64) -> (r: i64)
    requires
        -PRODUCT_LIMIT <= p <= PRODUCT_LIMIT,
        -PRODUCT_LIMIT <= q <= PRODUCT_LIMIT,
    ensures
        r == trunc_div(a * p + b * q, ONE as int),
        -0x80_0000_0000_0000 <= r <= 0x80_0000_0000_0000,
{
    proof {
        lemma_product_bound(a as int, p as int, FACTOR_LIMIT as int, PRODUCT_LIMIT as int);
        lemma_product_bound(b as int, q as int, FACTOR_LIMIT as int, PRODUCT_LIMIT as int);
        lemma_trunc_div_bound(a * p + b * q, ONE as int, 0x80_0000_0000_0000);
    }
    let sum: i128 = (a as i128) * (p as i128) + (b as i128) * (q as i128);
    let r: i128 = div_toward_zero(sum, ONE as i128);
    r as i64
}

/// The share of a step of length `d` that falls on each axis of a diagonal.
fn diagonal(d: i64) -> (s: i64)
    requires
        -PRODUCT_LIMIT <= d <= PRODUCT_LIMIT,
    ensures
        s == diagonal_share(d as int),
        -PRODUCT_LIMIT <= s <= PRODUCT_LIMIT,
{
    let wide: i128 = d as i128;
    let magnitude: i128 = if wide >= 0 {
        wide
    } else {
        -wide
    };
    assert(magnitude * magnitude == d * d) by (nonlinear_arith)
        requires
            magnitude == d || magnitude == -d,
    ;
    proof {
        lemma_product_bound(
            magnitude as int,
            magnitude as int,
            PRODUCT_LIMIT as int,
            PRODUCT_LIMIT as int,
        );
    }
    let square: i128 = magnitude * magnitude;
    let half: u128 = (square / 2) as u128;
    let root: u64 = integer_sqrt(half);
    proof {
        lemma_isqrt_bound(half as int, root as int, magnitude as int);
    }
    if d >= 0 {
        root as i64
    } else {
        -(root as i64)
    }
}

impl Action {
    /// The name to ask the host's input map for.
    pub fn name(&self) -> (name: String)
        ensures
            name@ == action_name(*self),
    {
        match self {
            Action::MoveForward => "move_forward".to_owned(),
            Action::MoveBackward => "move_backward".to_owned(),
            Action::MoveLeft => "move_left".to_owned(),
            Action::MoveRight => "move_right".to_owned(),
            Action::RotateLeft => "rotate_left".to_owned(),
            Action::RotateRight => "rotate_right".to_owned(),
        }
    }
}

impl DesktopInput {
    /// Records whether one action is pressed, and leaves the others.
    pub fn set(&mut self, action: Action, down: bool)
        ensures
            has_pressed(*final(self), action) == down,
            forall|other: Action|
                other != action ==> has_pressed(*final(self), other) == has_pressed(
                    *old(self),
                    other,
                ),
    {
        match action {
            Action::MoveForward => {
                self.move_forward = down;
            },
            Action::MoveBackward => {
                self.move_backward = down;
            },
            Action::MoveLeft => {
                self.move_left = down;
            },
            Action::MoveRight => {
                self.move_right = down;
            },
            Action::RotateLeft => {
                self.rotate_left = down;
            },
            Action::RotateRight => {
                self.rotate_right = down;
            },
        }
    }

    /// No action pressed.
    pub fn idle() -> (input: DesktopInput)
        ensures
            intent_x(input) == 0,
            intent_z(input) == 0,
            turn_intent(input) == 0,
            !input.move_forward && !input.move_backward && !input.move_left && !input.move_right
                && !input.rotate_left && !input.rotate_right,
    {
        DesktopInput {
            move_forward: false,
            move_backward: false,
            move_left: false,
            move_right: false,
            rotate_left: false,
            rotate_right: false,
        }
    }
}

impl Player3D {
    /// The rig can take a tick: its position lies in the world and its
    /// accumulated turn within the same limit.
    pub open spec fn movable(self) -> bool {
        self.position.in_world() && -WORLD_LIMIT <= self.yaw <= WORLD_LIMIT
    }

    /// A rig at the origin with the stock settings: five units per second,
    /// two angle units per second, the camera ten units behind and five
    /// above.
    pub fn new() -> (p: Player3D)
        ensures
            p == (Player3D {
                speed: 5_000_000,
                rotation_speed: 2_000_000,
                camera_distance: 10_000_000,
                camera_height: 5_000_000,
                position: Vec3 { x: 0, y: 0, z: 0 },
                yaw: 0,
            }),
    {
        Player3D {
            speed: 5_000_000,
            rotation_speed: 2_000_000,
            camera_distance: 10_000_000,
            camera_height: 5_000_000,
            position: Vec3 { x: 0, y: 0, z: 0 },
            yaw: 0,
        }
    }

    pub fn set_speed(&mut self, speed: i32)
        ensures
            *final(self) == (Player3D { speed, ..*old(self) }),
    {
        self.speed = speed;
    }

    pub fn set_rotation_speed(&mut self, rotation_speed: i32)
        ensures
            *final(self) == (Player3D { rotation_speed, ..*old(self) }),
    {
        self.rotation_speed = rotation_speed;
    }

    /// Tells whether the rig can take a tick.
    pub fn is_movable(&self) -> (b: bool)
        ensures
            b == self.movable(),
    {
        self.position.is_in_world() && -WORLD_LIMIT <= self.yaw && self.yaw <= WORLD_LIMIT
    }

    /// Where the follow camera goes when the rig enters the scene: behind
    /// and above the rig, tilted down by three tenths of a radian.
    pub fn ready(&self) -> (mount: CameraMount)
        ensures
            mount.position@ == (MathVec3 {
                x: 0,
                y: self.camera_height as int,
                z: self.camera_distance as int,
            }),
            mount.pitch == -300_000,
    {
        CameraMount {
            position: Vec3 { x: 0, y: self.camera_height as i64, z: self.camera_distance as i64 },
            pitch: -300_000,
        }
    }

    /// Advances the rig by one tick of `delta` millionths of a second.
    /// `basis` is the rig's frame as the scene reports it before the tick.
    /// The step is taken whatever lies in the way, and the turn is added
    /// to the yaw; nothing else changes.
    pub fn physics_process(&mut self, input: DesktopInput, basis: Basis, delta: i32)
        requires
            old(self).movable(),
        ensures
            final(self).position@ == old(self).position@.plus(
                world_step(basis, local_step(input, old(self).speed as int, delta as int)),
            ),
            final(self).yaw == old(self).yaw + turn_step(
                input,
                old(self).rotation_speed as int,
                delta as int,
            ),
            final(self).speed == old(self).speed,
            final(self).rotation_speed == old(self).rotation_speed,
            final(self).camera_distance == old(self).camera_distance,
            final(self).camera_height == old(self).camera_height,
    {
        let mut ix: i32 = 0;
        let mut iz: i32 = 0;
        let mut turn: i32 = 0;
        if input.move_forward {
            iz = iz - 1;
        }
        if input.move_backward {
            iz = iz + 1;
        }
        if input.move_left {
            ix = ix - 1;
        }
        if input.move_right {
            ix = ix + 1;
        }
        if input.rotate_left {
            turn = turn - 1;
        }
        if input.rotate_right {
            turn = turn + 1;
        }
        assert(ix == intent_x(input) && iz == intent_z(input) && turn == turn_intent(input));

        if ix != 0 || iz != 0 {
            let d: i64 = mul_scaled(self.speed as i64, delta as i64);
            let share: i64 = if ix != 0 && iz != 0 {
                diagonal(d)
            } else {
                d
            };
            let mx: i64 = (ix as i64) * share;
            let mz: i64 = (iz as i64) * share;
            let ghost local = local_step(input, self.speed as int, delta as int);
            assert(local.x == mx && local.z == mz) by (nonlinear_arith)
                requires
                    local.x == intent_x(input) * share,
                    local.z == intent_z(input) * share,
                    mx == ix * share,
                    mz == iz * share,
                    ix == intent_x(input),
                    iz == intent_z(input),
            ;
            let wx: i64 = blend(basis.col_c.x, mz, basis.col_a.x, mx);
            let wy: i64 = blend(basis.col_c.y, mz, basis.col_a.y, mx);
            let wz: i64 = blend(basis.col_c.z, mz, basis.col_a.z, mx);
            self.position = Vec3 {
                x: self.position.x + wx,
                y: self.position.y + wy,
                z: self.position.z + wz,
            };
        } else {
            proof {
                lemma_no_intent_no_step(input, basis, self.speed as int, delta as int);
            }
        }

        if turn != 0 {
            let signed_speed: i64 = (turn as i64) * (self.rotation_speed as i64);
            let amount: i64 = mul_scaled(signed_speed, delta as i64);
            assert(signed_speed * delta == turn_intent(input) * self.rotation_speed * delta)
                by (nonlinear_arith)
                requires
                    signed_speed == turn * self.rotation_speed,
                    turn == turn_intent(input),
            ;
            self.yaw = self.yaw + amount;
        } else {
            proof {
                lemma_no_intent_no_turn(input, self.rotation_speed as int, delta as int);
            }
        }
    }
}

} // verus!
