//! The immersive locomotion controller: a rig moved by the left stick,
//! turned by the right stick and teleported by the right hand's trigger.
//!
//! The controller owns neither the rig origin nor the nodes below it. The
//! host looks them up by name at every tick and hands over what it found;
//! a node that is missing only means that the action needing it is skipped.

use vstd::prelude::*;
use crate::units::{
    div_toward_zero, integer_sqrt, is_isqrt, isqrt, lemma_isqrt_bound, lemma_isqrt_is,
    lemma_isqrt_monotonic, lemma_product_bound, lemma_trunc_div_bound, lemma_trunc_div_cancel,
    lemma_trunc_div_multiple, mul_scaled, trunc_div, FACTOR_LIMIT, ONE,
};
use crate::vector::{unrotated, Basis, MathVec3, Stick, Transform, Vec3, STICK_ONE};

verus! {

/// What a stick-driven step is divided by to come out in millionths: the
/// stick scale twice, for the blend and for the magnitude, and a million
/// twice, for the speed and for the time.
pub const MOVE_DIVISOR: i128 = 1_073_676_289_000_000_000_000;

/// What a stick-driven turn is divided by: the stick scale and a million.
pub const TURN_DIVISOR: i64 = 32_767_000_000;

/// The nodes that the controller asks the host to look up.
#[derive(Clone, Copy, Debug, PartialEq, Eq, Structural)]
pub enum RigNode {
    Origin,
    Camera,
    LeftHand,
    RightHand,
}

/// The inputs that the controller reads from a hand-held controller.
#[derive(Clone, Copy, Debug, PartialEq, Eq, Structural)]
pub enum ControllerInput {
    /// The analog stick.
    Stick,
    /// The trigger that teleports.
    Select,
}

/// One of the two hand-held controllers.
#[derive(Clone, Copy, Debug, PartialEq, Eq, Structural)]
pub enum Hand {
    Left,
    Right,
}

/// What a hand-held controller reports at one instant: its stick, its
/// trigger and where it is in the world.
#[derive(Clone, Copy, Debug, PartialEq, Eq, Structural)]
pub struct ControllerReading {
    pub stick: Stick,
    pub select_pressed: bool,
    pub transform: Transform,
}

/// The rig origin as the host found it, with those nodes below it that the
/// host found too.
#[derive(Clone, Copy, Debug, PartialEq, Eq, Structural)]
pub struct RigOrigin {
    pub position: Vec3,
    pub camera: Option<Basis>,
    pub left_hand: Option<ControllerReading>,
    pub right_hand: Option<ControllerReading>,
}

/// What the host found when it looked for the immersive interface by name
/// and, where it found one, tried to initialize it.
#[derive(Clone, Copy, Debug, PartialEq, Eq, Structural)]
pub enum InterfaceLookup {
    NotFound,
    Found { initialized: bool },
}

/// Why the immersive interface did not come up. None of these is fatal:
/// the controller stays inert, and the next look at the host's display
/// finds a desktop.
#[derive(Clone, Copy, Debug, PartialEq, Eq, Structural)]
pub enum ImmersiveInitError {
    /// The host knows no interface of that name.
    InterfaceNotFound,
    /// The interface was found and refused to initialize.
    InitializationFailed,
    /// The one attempt was made before.
    AlreadyAttempted,
}

/// Whether the controller runs.
#[derive(Clone, Copy, Debug, PartialEq, Eq, Structural)]
pub enum Activation {
    /// Initialization was not attempted yet.
    Pending,
    /// Initialization failed; the controller never moves the rig.
    Inert,
    /// The interface was initialized and registered as primary.
    Active,
}

/// What one tick of stick input does to the rig origin: its new position,
/// and the angle by which to turn it about the vertical axis.
#[derive(Clone, Copy, Debug, PartialEq, Eq, Structural)]
pub struct RigUpdate {
    pub position: Vec3,
    pub rotation: i64,
}

/// The state of the immersive controller. Speeds are per second.
#[derive(Clone, Copy, Debug, PartialEq, Eq, Structural)]
pub struct VRPlayer {
    pub speed: i32,
    pub smooth_turn_speed: i32,
    pub snap_turn_angle: i32,
    pub teleport_distance: i32,
    pub activation: Activation,
    /// The trigger was down at the previous look, so that holding it
    /// teleports once.
    pub select_held: bool,
}

/// The name under which the host knows a node.
pub open spec fn node_name(node: RigNode) -> Seq<char> {
    match node {
        RigNode::Origin => "XROrigin3D"@,
        RigNode::Camera => "XRCamera3D"@,
        RigNode::LeftHand => "LeftHand"@,
        RigNode::RightHand => "RightHand"@,
    }
}

/// How an attempt at initialization ends, for a controller with the given
/// activation.
pub open spec fn initialization(activation: Activation, lookup: InterfaceLookup) -> Result<
    (),
    ImmersiveInitError,
> {
    if activation != Activation::Pending {
        Err(ImmersiveInitError::AlreadyAttempted)
    } else {
        match lookup {
            InterfaceLookup::NotFound => Err(ImmersiveInitError::InterfaceNotFound),
            InterfaceLookup::Found { initialized: false } => Err(
                ImmersiveInitError::InitializationFailed,
            ),
            InterfaceLookup::Found { initialized: true } => Ok(()),
        }
    }
}

/// The activation after an attempt at initialization.
pub open spec fn activated(activation: Activation, lookup: InterfaceLookup) -> Activation {
    if activation != Activation::Pending {
        activation
    } else if initialization(activation, lookup) is Ok {
        Activation::Active
    } else {
        Activation::Inert
    }
}

/// Initialization is attempted once: whatever the first attempt found, a
/// later attempt is refused and changes nothing. In particular a
/// controller that was left inert stays inert.
pub proof fn lemma_one_attempt_counts(
    activation: Activation,
    first: InterfaceLookup,
    second: InterfaceLookup,
)
    ensures
        activated(activated(activation, first), second) == activated(activation, first),
        initialization(activated(activation, first), second) == Err::<(), ImmersiveInitError>(
            ImmersiveInitError::AlreadyAttempted,
        ),
{
}

/// The name under which a hand-held controller knows an input.
pub open spec fn input_name(input: ControllerInput) -> Seq<char> {
    match input {
        ControllerInput::Stick => "move"@,
        ControllerInput::Select => "select"@,
    }
}

/// The node that stands for a hand.
pub open spec fn hand_node(hand: Hand) -> RigNode {
    match hand {
        Hand::Left => RigNode::LeftHand,
        Hand::Right => RigNode::RightHand,
    }
}

/// What the given hand reports, if the rig origin and the hand were found.
pub open spec fn reading(rig: Option<RigOrigin>, hand: Hand) -> Option<ControllerReading> {
    match rig {
        Some(origin) => match hand {
            Hand::Left => origin.left_hand,
            Hand::Right => origin.right_hand,
        },
        None => None,
    }
}

/// The deflection of the given hand's stick; a stick that was not found
/// counts as centered.
pub open spec fn controller_input(rig: Option<RigOrigin>, hand: Hand) -> Stick {
    match reading(rig, hand) {
        Some(r) => r.stick,
        None => Stick { x: 0, y: 0 },
    }
}

/// Whether the given hand's trigger is down; a trigger that was not found
/// counts as released.
pub open spec fn button_pressed(rig: Option<RigOrigin>, hand: Hand) -> bool {
    match reading(rig, hand) {
        Some(r) => r.select_pressed,
        None => false,
    }
}

/// The component `c` of the horizontal vector `(x, z)` once that vector is
/// brought to unit length, or zero where the vector has no length.
pub open spec fn unit_share(c: int, x: int, z: int) -> int {
    let len = isqrt(x * x + z * z);
    if len == 0 {
        0
    } else {
        trunc_div(c * ONE, len)
    }
}

/// A direction with its vertical part dropped and what remains brought to
/// unit length.
pub open spec fn flattened(v: MathVec3) -> MathVec3 {
    MathVec3 { x: unit_share(v.x, v.x, v.z), y: 0, z: unit_share(v.z, v.x, v.z) }
}

/// How far the stick is deflected, in stick counts.
pub open spec fn stick_magnitude(stick: Stick) -> int {
    isqrt(stick.magnitude_sq())
}

/// One horizontal coordinate of a stick-driven step: the blend of the
/// camera's forward and right directions by the stick, scaled by speed,
/// deflection and elapsed time.
pub open spec fn step_share(forward: int, right: int, stick: Stick, speed: int, delta: int) -> int {
    trunc_div(
        (forward * stick.y + right * stick.x) * stick_magnitude(stick) * speed * delta,
        MOVE_DIVISOR as int,
    )
}

/// The step that the left stick asks for, seen from a camera with the
/// given frame. The camera looks along its negative backward axis. The
/// step is horizontal wherever the camera looks.
pub open spec fn rig_step(camera: Basis, stick: Stick, speed: int, delta: int) -> MathVec3 {
    let forward = flattened(camera.col_c@.negated());
    let right = flattened(camera.col_a@);
    MathVec3 {
        x: step_share(forward.x, right.x, stick, speed, delta),
        y: 0,
        z: step_share(forward.z, right.z, stick, speed, delta),
    }
}

/// The right stick is pushed sideways by more than a tenth of its travel.
pub open spec fn turn_wanted(stick: Stick) -> bool {
    10 * stick.x > STICK_ONE || 10 * stick.x < -STICK_ONE
}

/// The turn that the right stick asks for: against its sideways
/// deflection, scaled by turn speed and elapsed time.
pub open spec fn turn_amount(stick: Stick, turn_speed: int, delta: int) -> int {
    trunc_div(-stick.x * turn_speed * delta, TURN_DIVISOR as int)
}

/// Where the rig origin stands after a tick of stick input.
pub open spec fn moved_position(player: VRPlayer, origin: RigOrigin, delta: int) -> MathVec3 {
    let stick = controller_input(Some(origin), Hand::Left);
    match origin.camera {
        Some(camera) => if stick.beyond_deadzone() {
            origin.position@.plus(rig_step(camera, stick, player.speed as int, delta))
        } else {
            origin.position@
        },
        None => origin.position@,
    }
}

/// By how much the rig origin turns in a tick of stick input.
pub open spec fn turned_by(player: VRPlayer, origin: RigOrigin, delta: int) -> int {
    let stick = controller_input(Some(origin), Hand::Right);
    if turn_wanted(stick) {
        turn_amount(stick, player.smooth_turn_speed as int, delta)
    } else {
        0
    }
}

/// The point that lies `distance` ahead of a hand, along the hand's
/// negative backward axis.
pub open spec fn teleport_target(hand: Transform, distance: int) -> MathVec3 {
    MathVec3 {
        x: hand.origin.x + trunc_div(-hand.basis.col_c.x * distance, ONE as int),
        y: hand.origin.y + trunc_div(-hand.basis.col_c.y * distance, ONE as int),
        z: hand.origin.z + trunc_div(-hand.basis.col_c.z * distance, ONE as int),
    }
}

/// With the left stick pushed fully forward and the camera looking level
/// along an unrotated frame, the rig advances by speed times elapsed time
/// against the backward axis, and not sideways.
pub proof fn lemma_full_forward(speed: int, delta: int)
    ensures
        rig_step(unrotated(), Stick { x: 0, y: STICK_ONE }, speed, delta) == (MathVec3 {
            x: 0,
            y: 0,
            z: -trunc_div(speed * delta, ONE as int),
        }),
{
    let stick = Stick { x: 0, y: STICK_ONE };
    let camera = unrotated();
    let one = ONE as int;
    let full = STICK_ONE as int;
    lemma_isqrt_is(one * one, one);
    lemma_trunc_div_multiple(-one, one);
    lemma_trunc_div_multiple(one, one);
    let ahead = camera.col_c@.negated();
    let aside = camera.col_a@;
    assert(ahead == (MathVec3 { x: 0, y: 0, z: -one }));
    assert(aside == (MathVec3 { x: one, y: 0, z: 0 }));
    assert(ahead.x * ahead.x + ahead.z * ahead.z == one * one && aside.x * aside.x + aside.z
        * aside.z == one * one && ahead.z * ONE == (-one) * one && aside.x * ONE == one * one
        && ahead.x * ONE == 0 && aside.z * ONE == 0) by (nonlinear_arith)
        requires
            ahead.x == 0 && ahead.z == -one,
            aside.x == one && aside.z == 0,
            ONE == one,
    ;
    assert(trunc_div(0, one) == 0);
    let forward = flattened(ahead);
    let right = flattened(aside);
    assert(forward == (MathVec3 { x: 0, y: 0, z: -one }));
    assert(right == (MathVec3 { x: one, y: 0, z: 0 }));
    lemma_isqrt_is(full * full, full);
    assert(stick.magnitude_sq() == full * full);
    assert(stick_magnitude(stick) == full);
    let pace = speed * delta;
    let k = one * (full * full);
    assert((forward.x * stick.y + right.x * stick.x) * full * speed * delta == 0)
        by (nonlinear_arith)
        requires
            forward.x == 0,
            stick.x == 0,
    ;
    assert((forward.z * stick.y + right.z * stick.x) * full * speed * delta == k * (-pace)
        && MOVE_DIVISOR == k * one && k > 0) by (nonlinear_arith)
        requires
            forward.z == -one,
            right.z == 0,
            stick.y == full,
            stick.x == 0,
            pace == speed * delta,
            k == one * (full * full),
            one == 1_000_000,
            full == 32767,
            MOVE_DIVISOR == 1_073_676_289_000_000_000_000,
    ;
    lemma_trunc_div_cancel(k, -pace, one);
}

/// A hand whose frame is not rotated teleports straight ahead: the target
/// lies exactly the distance from the hand, against its backward axis.
pub proof fn lemma_teleport_straight_ahead(origin: Vec3, distance: int)
    ensures
        teleport_target(Transform { basis: unrotated(), origin }, distance) == origin@.plus(
            MathVec3 { x: 0, y: 0, z: -distance },
        ),
{
    let hand = Transform { basis: unrotated(), origin };
    assert(-hand.basis.col_c.x * distance == 0 && -hand.basis.col_c.y * distance == 0
        && -hand.basis.col_c.z * distance == (-distance) * ONE) by (nonlinear_arith)
        requires
            hand.basis.col_c.x == 0,
            hand.basis.col_c.y == 0,
            hand.basis.col_c.z == 1_000_000,
            ONE == 1_000_000,
    ;
    lemma_trunc_div_multiple(-distance, ONE as int);
}

/// The rig can take a tick of stick input.
pub open spec fn rig_in_world(rig: Option<RigOrigin>) -> bool {
    rig matches Some(origin) ==> origin.position.in_world()
}

/// The right hand, where it was found, is at a place in the world.
pub open spec fn hand_in_world(rig: Option<RigOrigin>) -> bool {
    reading(rig, Hand::Right) matches Some(hand) ==> hand.transform.origin.in_world()
}

/// The length of the horizontal vector `(x, z)`.
fn horizontal_length(x: i64, z: i64) -> (len: i64)
    requires
        -FACTOR_LIMIT <= x <= FACTOR_LIMIT,
        -FACTOR_LIMIT <= z <= FACTOR_LIMIT,
    ensures
        len == isqrt(x * x + z * z),
        0 <= len <= 2 * FACTOR_LIMIT,
        -len <= x <= len,
        -len <= z <= len,
{
    proof {
        lemma_product_bound(x as int, x as int, FACTOR_LIMIT as int, FACTOR_LIMIT as int);
        lemma_product_bound(z as int, z as int, FACTOR_LIMIT as int, FACTOR_LIMIT as int);
        assert(0 <= x * x) by (nonlinear_arith);
        assert(0 <= z * z) by (nonlinear_arith);
    }
    let n: u128 = ((x as i128) * (x as i128) + (z as i128) * (z as i128)) as u128;
    let root: u64 = integer_sqrt(n);
    proof {
        let ax: int = if x >= 0 {
            x as int
        } else {
            -x
        };
        let az: int = if z >= 0 {
            z as int
        } else {
            -z
        };
        assert(is_isqrt(x * x, ax)) by (nonlinear_arith)
            requires
                ax == x || ax == -x,
                ax >= 0,
        ;
        assert(is_isqrt(z * z, az)) by (nonlinear_arith)
            requires
                az == z || az == -z,
                az >= 0,
        ;
        lemma_isqrt_monotonic(x * x, ax, n as int, root as int);
        lemma_isqrt_monotonic(z * z, az, n as int, root as int);
        assert(n <= (2 * FACTOR_LIMIT) * (2 * FACTOR_LIMIT));
        lemma_isqrt_bound(n as int, root as int, 2 * FACTOR_LIMIT);
    }
    root as i64
}

/// The component `c` of a horizontal vector of length `len`, once the
/// vector is brought to unit length.
fn unit_component(c: i64, len: i64) -> (u: i64)
    requires
        0 <= len <= 2 * FACTOR_LIMIT,
        -len <= c <= len,
    ensures
        u == (if len == 0 {
            0
        } else {
            trunc_div(c * ONE, len as int)
        }),
        -ONE <= u <= ONE,
{
    if len == 0 {
        0
    } else {
        proof {
            assert(-(ONE * len) <= c * ONE <= ONE * len) by (nonlinear_arith)
                requires
                    -len <= c <= len,
            ;
            lemma_trunc_div_bound(c * ONE, len as int, ONE as int);
        }
        let u: i128 = div_toward_zero((c as i128) * (ONE as i128), len as i128);
        u as i64
    }
}

/// One horizontal coordinate of a stick-driven step.
fn step_component(forward: i64, right: i64, stick: Stick, magnitude: i64, speed: i32, delta: i32) -> (s:
    i64)
    requires
        -ONE <= forward <= ONE,
        -ONE <= right <= ONE,
        magnitude == stick_magnitude(stick),
        0 <= magnitude <= 46341,
    ensures
        s == step_share(forward as int, right as int, stick, speed as int, delta as int),
        -0x1000_0000_0000 <= s <= 0x1000_0000_0000,
{
    proof {
        lemma_product_bound(forward as int, stick.y as int, ONE as int, 32768);
        lemma_product_bound(right as int, stick.x as int, ONE as int, 32768);
    }
    let blend: i128 = (forward as i128) * (stick.y as i128) + (right as i128) * (stick.x as i128);
    proof {
        lemma_product_bound(blend as int, magnitude as int, 65_536_000_000, 46341);
        lemma_product_bound(speed as int, delta as int, FACTOR_LIMIT as int, FACTOR_LIMIT as int);
    }
    let weighted: i128 = blend * (magnitude as i128);
    let pace: i128 = (speed as i128) * (delta as i128);
    proof {
        lemma_product_bound(
            weighted as int,
            pace as int,
            3_037_003_776_000_000,
            0x4000_0000_0000_0000,
        );
        assert(weighted * pace == (forward * stick.y + right * stick.x) * magnitude * speed
            * delta) by (nonlinear_arith)
            requires
                weighted == (forward * stick.y + right * stick.x) * magnitude,
                pace == speed * delta,
        ;
        lemma_trunc_div_bound(weighted * pace, MOVE_DIVISOR as int, 0x1000_0000_0000);
    }
    let s: i128 = div_toward_zero(weighted * pace, MOVE_DIVISOR);
    s as i64
}

impl RigNode {
    /// The name to look the node up by.
    pub fn name(&self) -> (name: String)
        ensures
            name@ == node_name(*self),
    {
        match self {
            RigNode::Origin => "XROrigin3D".to_owned(),
            RigNode::Camera => "XRCamera3D".to_owned(),
            RigNode::LeftHand => "LeftHand".to_owned(),
            RigNode::RightHand => "RightHand".to_owned(),
        }
    }
}

impl ControllerInput {
    /// The name to ask the hand-held controller for.
    pub fn name(&self) -> (name: String)
        ensures
            name@ == input_name(*self),
    {
        match self {
            ControllerInput::Stick => "move".to_owned(),
            ControllerInput::Select => "select".to_owned(),
        }
    }
}

impl Hand {
    /// The node to look the hand up by.
    pub fn node(&self) -> (node: RigNode)
        ensures
            node == hand_node(*self),
    {
        match self {
            Hand::Left => RigNode::LeftHand,
            Hand::Right => RigNode::RightHand,
        }
    }
}

impl VRPlayer {
    /// A controller with the stock settings, before initialization: three
    /// units per second, two angle units per second of smooth turn, thirty
    /// of snap turn, five units of teleport.
    pub fn new() -> (p: VRPlayer)
        ensures
            p == (VRPlayer {
                speed: 3_000_000,
                smooth_turn_speed: 2_000_000,
                snap_turn_angle: 30_000_000,
                teleport_distance: 5_000_000,
                activation: Activation::Pending,
                select_held: false,
            }),
    {
        VRPlayer {
            speed: 3_000_000,
            smooth_turn_speed: 2_000_000,
            snap_turn_angle: 30_000_000,
            teleport_distance: 5_000_000,
            activation: Activation::Pending,
            select_held: false,
        }
    }

    pub fn set_speed(&mut self, speed: i32)
        ensures
            *final(self) == (VRPlayer { speed, ..*old(self) }),
    {
        self.speed = speed;
    }

    pub fn set_smooth_turn_speed(&mut self, turn_speed: i32)
        ensures
            *final(self) == (VRPlayer { smooth_turn_speed: turn_speed, ..*old(self) }),
    {
        self.smooth_turn_speed = turn_speed;
    }

    pub fn set_snap_turn_angle(&mut self, angle: i32)
        ensures
            *final(self) == (VRPlayer { snap_turn_angle: angle, ..*old(self) }),
    {
        self.snap_turn_angle = angle;
    }

    pub fn set_teleport_distance(&mut self, distance: i32)
        ensures
            *final(self) == (VRPlayer { teleport_distance: distance, ..*old(self) }),
    {
        self.teleport_distance = distance;
    }

    /// The name of the immersive interface that the host is asked for.
    pub fn interface_name() -> (name: String)
        ensures
            name@ == "OpenXR"@,
    {
        "OpenXR".to_owned()
    }

    /// Takes the outcome of the one attempt to bring the immersive
    /// interface up. The controller becomes active where the interface was
    /// found and initialized; the host then registers the interface as its
    /// primary one. Any failure leaves the controller inert for good. A
    /// controller that has had its attempt refuses another and stays as
    /// it is.
    pub fn initialize_vr(&mut self, lookup: InterfaceLookup) -> (outcome: Result<
        (),
        ImmersiveInitError,
    >)
        ensures
            outcome == initialization(old(self).activation, lookup),
            final(self).activation == activated(old(self).activation, lookup),
            *final(self) == (VRPlayer { activation: final(self).activation, ..*old(self) }),
    {
        match self.activation {
            Activation::Pending => {},
            _ => {
                return Err(ImmersiveInitError::AlreadyAttempted);
            },
        }
        match lookup {
            InterfaceLookup::Found { initialized } => {
                if initialized {
                    self.activation = Activation::Active;
                    Ok(())
                } else {
                    self.activation = Activation::Inert;
                    Err(ImmersiveInitError::InitializationFailed)
                }
            },
            InterfaceLookup::NotFound => {
                self.activation = Activation::Inert;
                Err(ImmersiveInitError::InterfaceNotFound)
            },
        }
    }

    /// Tells whether this tick's input is processed: only by an active
    /// controller, and only while the interface says it is initialized.
    pub fn physics_process(&self, interface_initialized: bool) -> (run: bool)
        ensures
            run == (self.activation == Activation::Active && interface_initialized),
    {
        match self.activation {
            Activation::Active => interface_initialized,
            _ => false,
        }
    }

    /// The deflection of a hand's stick, centered where the rig origin or
    /// the hand was not found.
    pub fn get_controller_input(rig: &Option<RigOrigin>, hand: Hand) -> (stick: Stick)
        ensures
            stick == controller_input(*rig, hand),
    {
        match rig {
            Some(origin) => {
                let found = match hand {
                    Hand::Left => origin.left_hand,
                    Hand::Right => origin.right_hand,
                };
                match found {
                    Some(r) => r.stick,
                    None => Stick { x: 0, y: 0 },
                }
            },
            None => Stick { x: 0, y: 0 },
        }
    }

    /// Whether a hand's trigger is down, released where the rig origin or
    /// the hand was not found.
    pub fn is_button_pressed(rig: &Option<RigOrigin>, hand: Hand) -> (down: bool)
        ensures
            down == button_pressed(*rig, hand),
    {
        match rig {
            Some(origin) => {
                let found = match hand {
                    Hand::Left => origin.left_hand,
                    Hand::Right => origin.right_hand,
                };
                match found {
                    Some(r) => r.select_pressed,
                    None => false,
                }
            },
            None => false,
        }
    }

    /// Turns one tick of stick input into the rig origin's new position
    /// and turn, for a tick of `delta` millionths of a second. The origin
    /// moves where the left stick is beyond its dead zone and the camera
    /// was found; it turns where the right stick is pushed sideways beyond
    /// its dead zone. Without a rig origin there is nothing to update.
    pub fn handle_movement(&self, rig: &Option<RigOrigin>, delta: i32) -> (update: Option<
        RigUpdate,
    >)
        requires
            rig_in_world(*rig),
        ensures
            *rig is None ==> update is None,
            *rig matches Some(origin) ==> (update matches Some(u) && u.position@ == moved_position(
                *self,
                origin,
                delta as int,
            ) && u.rotation == turned_by(*self, origin, delta as int) && u.position.y
                == origin.position.y),
    {
        let left = Self::get_controller_input(rig, Hand::Left);
        let right = Self::get_controller_input(rig, Hand::Right);
        match rig {
            None => None,
            Some(origin) => {
                let mut position = origin.position;
                let lx: i64 = left.x as i64;
                let ly: i64 = left.y as i64;
                proof {
                    lemma_product_bound(lx as int, lx as int, 32768, 32768);
                    lemma_product_bound(ly as int, ly as int, 32768, 32768);
                    assert(0 <= lx * lx) by (nonlinear_arith);
                    assert(0 <= ly * ly) by (nonlinear_arith);
                }
                let deflection_sq: i64 = lx * lx + ly * ly;
                if 100 * deflection_sq > 1_073_676_289 {
                    match origin.camera {
                        Some(camera) => {
                            let fx: i64 = -(camera.col_c.x as i64);
                            let fz: i64 = -(camera.col_c.z as i64);
                            let rx: i64 = camera.col_a.x as i64;
                            let rz: i64 = camera.col_a.z as i64;
                            let forward_len: i64 = horizontal_length(fx, fz);
                            let right_len: i64 = horizontal_length(rx, rz);
                            let hfx: i64 = unit_component(fx, forward_len);
                            let hfz: i64 = unit_component(fz, forward_len);
                            let hrx: i64 = unit_component(rx, right_len);
                            let hrz: i64 = unit_component(rz, right_len);
                            let root: u64 = integer_sqrt(deflection_sq as u128);
                            proof {
                                lemma_isqrt_bound(deflection_sq as int, root as int, 46341);
                            }
                            let magnitude: i64 = root as i64;
                            let dx: i64 = step_component(
                                hfx,
                                hrx,
                                left,
                                magnitude,
                                self.speed,
                                delta,
                            );
                            let dz: i64 = step_component(
                                hfz,
                                hrz,
                                left,
                                magnitude,
                                self.speed,
                                delta,
                            );
                            position = Vec3 {
                                x: position.x + dx,
                                y: position.y,
                                z: position.z + dz,
                            };
                        },
                        None => {},
                    }
                }
                let mut rotation: i64 = 0;
                let sideways: i64 = right.x as i64;
                if 10 * sideways > 32767 || 10 * sideways < -32767 {
                    proof {
                        lemma_product_bound(
                            -sideways as int,
                            self.smooth_turn_speed as int,
                            32768,
                            FACTOR_LIMIT as int,
                        );
                        lemma_product_bound(
                            -sideways * self.smooth_turn_speed,
                            delta as int,
                            32768 * FACTOR_LIMIT,
                            FACTOR_LIMIT as int,
                        );
                        lemma_trunc_div_bound(
                            -sideways * self.smooth_turn_speed * delta,
                            TURN_DIVISOR as int,
                            0x800_0000_0000,
                        );
                    }
                    let turn: i128 = (-sideways as i128) * (self.smooth_turn_speed as i128) * (
                    delta as i128);
                    rotation = div_toward_zero(turn, TURN_DIVISOR as i128) as i64;
                }
                Some(RigUpdate { position, rotation })
            },
        }
    }

    /// Looks at the right hand's trigger and, on the look at which it goes
    /// down, gives the rig origin's new position: the horizontal place of
    /// the point that lies the teleport distance ahead of the right hand,
    /// at the height the origin already has. While the trigger stays down,
    /// and while it is up, there is no new position.
    pub fn handle_teleportation(&mut self, rig: &Option<RigOrigin>) -> (target: Option<Vec3>)
        requires
            hand_in_world(*rig),
        ensures
            final(self).select_held == button_pressed(*rig, Hand::Right),
            *final(self) == (VRPlayer { select_held: final(self).select_held, ..*old(self) }),
            target is Some <==> button_pressed(*rig, Hand::Right) && !old(self).select_held,
            target matches Some(t) ==> (*rig matches Some(origin) && origin.right_hand matches Some(
                hand,
            ) && t@ == (MathVec3 {
                x: teleport_target(hand.transform, old(self).teleport_distance as int).x,
                y: origin.position.y as int,
                z: teleport_target(hand.transform, old(self).teleport_distance as int).z,
            })),
    {
        let pressed = Self::is_button_pressed(rig, Hand::Right);
        let rising = pressed && !self.select_held;
        self.select_held = pressed;
        if !rising {
            return None;
        }
        match rig {
            Some(origin) => match origin.right_hand {
                Some(hand) => {
                    let ahead_x: i64 = mul_scaled(
                        -(hand.transform.basis.col_c.x as i64),
                        self.teleport_distance as i64,
                    );
                    let ahead_z: i64 = mul_scaled(
                        -(hand.transform.basis.col_c.z as i64),
                        self.teleport_distance as i64,
                    );
                    Some(
                        Vec3 {
                            x: hand.transform.origin.x + ahead_x,
                            y: origin.position.y,
                            z: hand.transform.origin.z + ahead_z,
                        },
                    )
                },
                None => None,
            },
            None => None,
        }
    }
}

} // verus!
