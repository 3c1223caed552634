use meetia::vector::{Axis, Basis, Stick, Transform, Vec3, STICK_ONE, WORLD_LIMIT};
use meetia::vr_player::{
    Activation, ControllerInput, ControllerReading, Hand, ImmersiveInitError, InterfaceLookup,
    RigNode, RigOrigin, RigUpdate, VRPlayer,
};

const ONE: i32 = 1_000_000;

fn hand(stick: Stick, select_pressed: bool) -> ControllerReading {
    ControllerReading {
        stick,
        select_pressed,
        transform: Transform { basis: Basis::identity(), origin: Vec3::zero() },
    }
}

fn pointing(origin: Vec3, backward: Axis, select_pressed: bool) -> ControllerReading {
    ControllerReading {
        stick: Stick::centered(),
        select_pressed,
        transform: Transform {
            basis: Basis { col_a: Axis::new(ONE, 0, 0), col_b: Axis::new(0, ONE, 0), col_c: backward },
            origin,
        },
    }
}

fn found_rig(position: Vec3, camera: Option<Basis>, left: Stick, right: Stick) -> Option<RigOrigin> {
    Some(RigOrigin {
        position,
        camera,
        left_hand: Some(hand(left, false)),
        right_hand: Some(hand(right, false)),
    })
}

fn rig_with_right_hand(position: Vec3, right: ControllerReading) -> Option<RigOrigin> {
    Some(RigOrigin { position, camera: None, left_hand: None, right_hand: Some(right) })
}

fn eighth_turned() -> Basis {
    Basis {
        col_a: Axis::new(707_107, 0, -707_107),
        col_b: Axis::new(0, ONE, 0),
        col_c: Axis::new(707_107, 0, 707_107),
    }
}

fn looking_down() -> Basis {
    Basis {
        col_a: Axis::new(ONE, 0, 0),
        col_b: Axis::new(0, 800_000, -600_000),
        col_c: Axis::new(0, 600_000, 800_000),
    }
}

fn looking_straight_up() -> Basis {
    Basis {
        col_a: Axis::new(ONE, 0, 0),
        col_b: Axis::new(0, 0, -ONE),
        col_c: Axis::new(0, ONE, 0),
    }
}

fn moved(player: &VRPlayer, rig: &Option<RigOrigin>, delta: i32) -> RigUpdate {
    match player.handle_movement(rig, delta) {
        Some(update) => update,
        None => panic!("expected an update"),
    }
}

#[test]
fn stock_settings_of_the_immersive_controller() {
    let player = VRPlayer::new();
    assert_eq!(player.speed, 3_000_000);
    assert_eq!(player.smooth_turn_speed, 2_000_000);
    assert_eq!(player.snap_turn_angle, 30_000_000);
    assert_eq!(player.teleport_distance, 5_000_000);
    assert_eq!(player.activation, Activation::Pending);
    assert!(!player.select_held);
}

#[test]
fn immersive_setters_change_one_field() {
    let mut player = VRPlayer::new();
    player.set_speed(1);
    assert_eq!(player, VRPlayer { speed: 1, ..VRPlayer::new() });
    player.set_smooth_turn_speed(2);
    assert_eq!(player, VRPlayer { speed: 1, smooth_turn_speed: 2, ..VRPlayer::new() });
    player.set_snap_turn_angle(3);
    assert_eq!(
        player,
        VRPlayer { speed: 1, smooth_turn_speed: 2, snap_turn_angle: 3, ..VRPlayer::new() }
    );
    player.set_teleport_distance(4);
    assert_eq!(
        player,
        VRPlayer {
            speed: 1,
            smooth_turn_speed: 2,
            snap_turn_angle: 3,
            teleport_distance: 4,
            ..VRPlayer::new()
        }
    );
}

#[test]
fn names_of_the_host_nodes() {
    assert_eq!(RigNode::Origin.name(), "XROrigin3D");
    assert_eq!(RigNode::Camera.name(), "XRCamera3D");
    assert_eq!(RigNode::LeftHand.name(), "LeftHand");
    assert_eq!(RigNode::RightHand.name(), "RightHand");
    assert_eq!(VRPlayer::interface_name(), "OpenXR");
}

#[test]
fn initialized_interface_activates() {
    let mut player = VRPlayer::new();
    assert_eq!(player.initialize_vr(InterfaceLookup::Found { initialized: true }), Ok(()));
    assert_eq!(player, VRPlayer { activation: Activation::Active, ..VRPlayer::new() });
}

#[test]
fn missing_interface_leaves_inert() {
    let mut player = VRPlayer::new();
    assert_eq!(
        player.initialize_vr(InterfaceLookup::NotFound),
        Err(ImmersiveInitError::InterfaceNotFound)
    );
    assert_eq!(player, VRPlayer { activation: Activation::Inert, ..VRPlayer::new() });
}

#[test]
fn failed_initialization_leaves_inert() {
    let mut player = VRPlayer::new();
    assert_eq!(
        player.initialize_vr(InterfaceLookup::Found { initialized: false }),
        Err(ImmersiveInitError::InitializationFailed)
    );
    assert_eq!(player.activation, Activation::Inert);
}

#[test]
fn initialization_happens_once() {
    let mut inert = VRPlayer::new();
    assert!(inert.initialize_vr(InterfaceLookup::NotFound).is_err());
    assert_eq!(
        inert.initialize_vr(InterfaceLookup::Found { initialized: true }),
        Err(ImmersiveInitError::AlreadyAttempted)
    );
    assert_eq!(inert.activation, Activation::Inert);
    let mut active = VRPlayer::new();
    assert!(active.initialize_vr(InterfaceLookup::Found { initialized: true }).is_ok());
    assert_eq!(
        active.initialize_vr(InterfaceLookup::NotFound),
        Err(ImmersiveInitError::AlreadyAttempted)
    );
    assert_eq!(active.activation, Activation::Active);
}

#[test]
fn only_an_active_controller_processes_ticks() {
    let mut player = VRPlayer::new();
    assert!(!player.physics_process(true));
    assert!(!player.physics_process(false));
    assert!(player.initialize_vr(InterfaceLookup::Found { initialized: true }).is_ok());
    assert!(player.physics_process(true));
    assert!(!player.physics_process(false));
    let mut inert = VRPlayer::new();
    assert!(inert.initialize_vr(InterfaceLookup::Found { initialized: false }).is_err());
    assert!(!inert.physics_process(true));
    assert!(!inert.physics_process(false));
}

#[test]
fn missing_nodes_read_as_rest() {
    assert_eq!(VRPlayer::get_controller_input(&None, Hand::Left), Stick::centered());
    assert!(!VRPlayer::is_button_pressed(&None, Hand::Right));
    let bare = Some(RigOrigin {
        position: Vec3::zero(),
        camera: None,
        left_hand: None,
        right_hand: None,
    });
    assert_eq!(VRPlayer::get_controller_input(&bare, Hand::Left), Stick::centered());
    assert_eq!(VRPlayer::get_controller_input(&bare, Hand::Right), Stick::centered());
    assert!(!VRPlayer::is_button_pressed(&bare, Hand::Left));
    assert!(!VRPlayer::is_button_pressed(&bare, Hand::Right));
}

#[test]
fn found_nodes_read_as_reported() {
    let found = Some(RigOrigin {
        position: Vec3::zero(),
        camera: None,
        left_hand: Some(hand(Stick::new(1, -2), true)),
        right_hand: Some(hand(Stick::new(-3, 4), false)),
    });
    assert_eq!(VRPlayer::get_controller_input(&found, Hand::Left), Stick::new(1, -2));
    assert_eq!(VRPlayer::get_controller_input(&found, Hand::Right), Stick::new(-3, 4));
    assert!(VRPlayer::is_button_pressed(&found, Hand::Left));
    assert!(!VRPlayer::is_button_pressed(&found, Hand::Right));
}

#[test]
fn no_rig_origin_no_update() {
    assert_eq!(VRPlayer::new().handle_movement(&None, 16_667), None);
}

#[test]
fn full_forward_for_one_second_at_three_advances_three() {
    let player = VRPlayer::new();
    let rig = found_rig(
        Vec3::zero(),
        Some(Basis::identity()),
        Stick::new(0, STICK_ONE),
        Stick::centered(),
    );
    assert_eq!(
        moved(&player, &rig, 1_000_000),
        RigUpdate { position: Vec3::new(0, 0, -3_000_000), rotation: 0 }
    );
}

#[test]
fn deflection_counts_twice() {
    let player = VRPlayer::new();
    let rig = found_rig(
        Vec3::zero(),
        Some(Basis::identity()),
        Stick::new(0, 16_384),
        Stick::centered(),
    );
    assert_eq!(moved(&player, &rig, 1_000_000).position, Vec3::new(0, 0, -750_045));
}

#[test]
fn step_blends_forward_and_right() {
    let player = VRPlayer::new();
    let rig = found_rig(
        Vec3::new(1_000_000, 2_000_000, 3_000_000),
        Some(Basis::identity()),
        Stick::new(20_000, -15_000),
        Stick::centered(),
    );
    assert_eq!(
        moved(&player, &rig, 16_667).position,
        Vec3::new(1_023_284, 2_000_000, 3_017_463)
    );
}

#[test]
fn step_follows_the_camera() {
    let player = VRPlayer::new();
    let forward = found_rig(
        Vec3::zero(),
        Some(eighth_turned()),
        Stick::new(0, STICK_ONE),
        Stick::centered(),
    );
    assert_eq!(moved(&player, &forward, 1_000_000).position, Vec3::new(-2_121_321, 0, -2_121_321));
    let mut slow = VRPlayer::new();
    slow.set_speed(2_000_000);
    let strafe = found_rig(
        Vec3::zero(),
        Some(eighth_turned()),
        Stick::new(STICK_ONE, 0),
        Stick::centered(),
    );
    assert_eq!(moved(&slow, &strafe, 500_000).position, Vec3::new(707_107, 0, -707_107));
}

#[test]
fn step_is_horizontal_when_the_camera_looks_down() {
    let player = VRPlayer::new();
    let rig = found_rig(
        Vec3::zero(),
        Some(looking_down()),
        Stick::new(0, STICK_ONE),
        Stick::centered(),
    );
    assert_eq!(moved(&player, &rig, 1_000_000).position, Vec3::new(0, 0, -3_000_000));
}

#[test]
fn no_forward_step_when_the_camera_looks_straight_up() {
    let player = VRPlayer::new();
    let rig = found_rig(
        Vec3::new(5, 6, 7),
        Some(looking_straight_up()),
        Stick::new(0, STICK_ONE),
        Stick::centered(),
    );
    assert_eq!(moved(&player, &rig, 1_000_000).position, Vec3::new(5, 6, 7));
}

#[test]
fn scale_of_the_camera_frame_does_not_matter() {
    let player = VRPlayer::new();
    let doubled = Basis {
        col_a: Axis::new(2 * ONE, 0, 0),
        col_b: Axis::new(0, 2 * ONE, 0),
        col_c: Axis::new(0, 0, 2 * ONE),
    };
    let rig = found_rig(Vec3::zero(), Some(doubled), Stick::new(0, STICK_ONE), Stick::centered());
    assert_eq!(moved(&player, &rig, 1_000_000).position, Vec3::new(0, 0, -3_000_000));
}

#[test]
fn left_stick_within_the_dead_zone_does_not_move() {
    let player = VRPlayer::new();
    for stick in [Stick::centered(), Stick::new(3_276, 0), Stick::new(0, -3_276)] {
        let rig = found_rig(Vec3::new(1, 2, 3), Some(Basis::identity()), stick, Stick::centered());
        assert_eq!(moved(&player, &rig, 1_000_000).position, Vec3::new(1, 2, 3));
    }
}

#[test]
fn left_stick_just_beyond_the_dead_zone_moves() {
    let player = VRPlayer::new();
    let sideways = found_rig(
        Vec3::zero(),
        Some(Basis::identity()),
        Stick::new(3_277, 0),
        Stick::centered(),
    );
    assert_eq!(moved(&player, &sideways, 1_000_000).position, Vec3::new(30_005, 0, 0));
    let diagonal = found_rig(
        Vec3::zero(),
        Some(Basis::identity()),
        Stick::new(2_317, 2_318),
        Stick::centered(),
    );
    assert_eq!(moved(&player, &diagonal, 1_000_000).position, Vec3::new(21_215, 0, -21_224));
}

#[test]
fn no_camera_no_step() {
    let player = VRPlayer::new();
    let rig = found_rig(Vec3::new(1, 2, 3), None, Stick::new(0, STICK_ONE), Stick::new(STICK_ONE, 0));
    assert_eq!(
        moved(&player, &rig, 1_000_000),
        RigUpdate { position: Vec3::new(1, 2, 3), rotation: -2_000_000 }
    );
}

#[test]
fn no_left_hand_no_step() {
    let player = VRPlayer::new();
    let rig = Some(RigOrigin {
        position: Vec3::new(1, 2, 3),
        camera: Some(Basis::identity()),
        left_hand: None,
        right_hand: None,
    });
    assert_eq!(
        moved(&player, &rig, 1_000_000),
        RigUpdate { position: Vec3::new(1, 2, 3), rotation: 0 }
    );
}

#[test]
fn right_stick_turns_against_its_deflection() {
    let player = VRPlayer::new();
    let turns = [
        (STICK_ONE, 1_000_000, -2_000_000),
        (-STICK_ONE, 1_000_000, 2_000_000),
        (-16_384, 16_667, 16_667),
        (3_277, 1_000_000, -200_018),
        (-3_277, 1_000_000, 200_018),
    ];
    for (x, delta, expected) in turns {
        let rig = found_rig(Vec3::zero(), Some(Basis::identity()), Stick::centered(), Stick::new(x, 0));
        assert_eq!(
            moved(&player, &rig, delta),
            RigUpdate { position: Vec3::zero(), rotation: expected }
        );
    }
}

#[test]
fn right_stick_within_the_dead_zone_does_not_turn() {
    let player = VRPlayer::new();
    for stick in [Stick::new(3_276, 0), Stick::new(-3_276, 0), Stick::new(0, STICK_ONE)] {
        let rig = found_rig(Vec3::zero(), Some(Basis::identity()), Stick::centered(), stick);
        assert_eq!(moved(&player, &rig, 1_000_000).rotation, 0);
    }
}

#[test]
fn moving_and_turning_in_one_update() {
    let player = VRPlayer::new();
    let rig = found_rig(
        Vec3::zero(),
        Some(Basis::identity()),
        Stick::new(0, STICK_ONE),
        Stick::new(STICK_ONE, 0),
    );
    assert_eq!(
        moved(&player, &rig, 1_000_000),
        RigUpdate { position: Vec3::new(0, 0, -3_000_000), rotation: -2_000_000 }
    );
}

#[test]
fn update_at_the_limits() {
    let mut player = VRPlayer::new();
    player.set_speed(i32::MAX);
    let camera = Basis {
        col_a: Axis::new(i32::MAX, 0, i32::MIN),
        col_b: Axis::new(0, ONE, 0),
        col_c: Axis::new(i32::MIN, 0, i32::MAX),
    };
    let rig = found_rig(
        Vec3::new(WORLD_LIMIT, 0, -WORLD_LIMIT),
        Some(camera),
        Stick::new(i16::MIN, i16::MIN),
        Stick::centered(),
    );
    assert_eq!(
        moved(&player, &rig, i32::MAX).position,
        Vec3::new(4_611_676_794_691_669_103, 0, -4_611_676_794_691_669_103)
    );
    player.set_speed(i32::MIN);
    let other = found_rig(
        Vec3::zero(),
        Some(Basis::identity()),
        Stick::new(i16::MIN, STICK_ONE),
        Stick::centered(),
    );
    assert_eq!(
        moved(&player, &other, i32::MAX).position,
        Vec3::new(6_522_173_283_140, 0, 6_521_974_242_207)
    );
}

#[test]
fn teleport_five_ahead_of_the_right_hand() {
    let mut player = VRPlayer::new();
    let rig = rig_with_right_hand(
        Vec3::new(7, 8, 9),
        pointing(Vec3::new(1_000_000, 2_000_000, 3_000_000), Axis::new(0, 0, ONE), true),
    );
    assert_eq!(player.handle_teleportation(&rig), Some(Vec3::new(1_000_000, 8, -2_000_000)));
    assert!(player.select_held);
}

#[test]
fn teleport_along_a_slanted_hand() {
    let mut player = VRPlayer::new();
    let sideways = rig_with_right_hand(
        Vec3::new(0, -4, 0),
        pointing(Vec3::new(1_000_000, 2_000_000, 3_000_000), Axis::new(707_107, 0, 707_107), true),
    );
    assert_eq!(player.handle_teleportation(&sideways), Some(Vec3::new(-2_535_535, -4, -535_535)));
    let mut other = VRPlayer::new();
    let upwards = rig_with_right_hand(
        Vec3::new(9, 1_500_000, 9),
        pointing(Vec3::new(-250_000, 0, 0), Axis::new(600_000, -800_000, 0), true),
    );
    assert_eq!(other.handle_teleportation(&upwards), Some(Vec3::new(-3_250_000, 1_500_000, 0)));
}

#[test]
fn teleport_distance_is_configurable() {
    let mut player = VRPlayer::new();
    player.set_teleport_distance(1_234_567);
    let rig = rig_with_right_hand(
        Vec3::zero(),
        pointing(Vec3::zero(), Axis::new(333_333, 0, -666_667), true),
    );
    assert_eq!(player.handle_teleportation(&rig), Some(Vec3::new(-411_521, 0, 823_045)));
}

#[test]
fn held_trigger_teleports_once() {
    let mut player = VRPlayer::new();
    let down = rig_with_right_hand(
        Vec3::zero(),
        pointing(Vec3::zero(), Axis::new(0, 0, ONE), true),
    );
    let up = rig_with_right_hand(
        Vec3::zero(),
        pointing(Vec3::zero(), Axis::new(0, 0, ONE), false),
    );
    assert!(player.handle_teleportation(&down).is_some());
    assert_eq!(player.handle_teleportation(&down), None);
    assert_eq!(player.handle_teleportation(&down), None);
    assert!(player.select_held);
    assert_eq!(player.handle_teleportation(&up), None);
    assert!(!player.select_held);
    assert_eq!(player.handle_teleportation(&down), Some(Vec3::new(0, 0, -5_000_000)));
}

#[test]
fn released_trigger_does_not_teleport() {
    let mut player = VRPlayer::new();
    let up = rig_with_right_hand(
        Vec3::zero(),
        pointing(Vec3::zero(), Axis::new(0, 0, ONE), false),
    );
    assert_eq!(player.handle_teleportation(&up), None);
    assert_eq!(player, VRPlayer::new());
}

#[test]
fn missing_right_hand_does_not_teleport() {
    let mut player = VRPlayer::new();
    let left_only = Some(RigOrigin {
        position: Vec3::zero(),
        camera: Some(Basis::identity()),
        left_hand: Some(hand(Stick::centered(), true)),
        right_hand: None,
    });
    assert_eq!(player.handle_teleportation(&left_only), None);
    assert_eq!(player.handle_teleportation(&None), None);
    assert!(!player.select_held);
}

#[test]
fn lost_hand_counts_as_a_release() {
    let mut player = VRPlayer::new();
    let down = rig_with_right_hand(
        Vec3::zero(),
        pointing(Vec3::zero(), Axis::new(0, 0, ONE), true),
    );
    assert!(player.handle_teleportation(&down).is_some());
    assert_eq!(player.handle_teleportation(&None), None);
    assert!(!player.select_held);
    assert!(player.handle_teleportation(&down).is_some());
}

#[test]
fn teleport_at_the_limits() {
    let mut player = VRPlayer::new();
    player.set_teleport_distance(i32::MIN);
    let rig = rig_with_right_hand(
        Vec3::new(0, i64::MAX, 0),
        pointing(
            Vec3::new(WORLD_LIMIT, i64::MIN, -WORLD_LIMIT),
            Axis::new(i32::MIN, 0, i32::MAX),
            true,
        ),
    );
    assert_eq!(
        player.handle_teleportation(&rig),
        Some(Vec3::new(
            WORLD_LIMIT - 4_611_686_018_427,
            i64::MAX,
            -WORLD_LIMIT + 4_611_686_016_279
        ))
    );
}

#[test]
fn names_of_the_controller_inputs() {
    assert_eq!(ControllerInput::Stick.name(), "move");
    assert_eq!(ControllerInput::Select.name(), "select");
}

#[test]
fn nodes_of_the_hands() {
    assert_eq!(Hand::Left.node(), RigNode::LeftHand);
    assert_eq!(Hand::Right.node(), RigNode::RightHand);
}

#[test]
fn step_keeps_the_height() {
    let player = VRPlayer::new();
    let rig = found_rig(
        Vec3::new(0, 1_234_567, 0),
        Some(looking_down()),
        Stick::new(12_000, 30_000),
        Stick::new(-20_000, 0),
    );
    assert_eq!(moved(&player, &rig, 16_667).position.y, 1_234_567);
}
