use meetia::vector::Vec3;
use meetia::world_builder::{Color, Primitive, Shape, WorldBuilder};

const RED: Color = Color { r: 1_000_000, g: 0, b: 0 };
const GREEN: Color = Color { r: 0, g: 1_000_000, b: 0 };
const BLUE: Color = Color { r: 0, g: 0, b: 1_000_000 };
const YELLOW: Color = Color { r: 1_000_000, g: 1_000_000, b: 0 };
const MAGENTA: Color = Color { r: 1_000_000, g: 0, b: 1_000_000 };
const GRAY: Color = Color { r: 500_000, g: 500_000, b: 500_000 };

fn cube(color: Color, x: i64, y: i64, z: i64) -> Primitive {
    Primitive {
        shape: Shape::Cuboid { size: Vec3::new(2_000_000, 2_000_000, 2_000_000) },
        color,
        position: Vec3::new(x, y, z),
    }
}

fn sphere(color: Color, x: i64, y: i64, z: i64) -> Primitive {
    Primitive {
        shape: Shape::Sphere { radius: 1_500_000, height: 3_000_000 },
        color,
        position: Vec3::new(x, y, z),
    }
}

fn ground() -> Primitive {
    Primitive {
        shape: Shape::Cuboid { size: Vec3::new(100_000_000, 500_000, 100_000_000) },
        color: GRAY,
        position: Vec3::new(0, -2_000_000, 0),
    }
}

fn landmarks() -> Vec<Primitive> {
    vec![
        cube(RED, 10_000_000, 0, 0),
        cube(BLUE, -10_000_000, 0, 0),
        cube(GREEN, 0, 0, 10_000_000),
        cube(RED, 0, 0, -10_000_000),
        cube(BLUE, 15_000_000, 5_000_000, 15_000_000),
        cube(GREEN, -15_000_000, 3_000_000, -15_000_000),
        sphere(YELLOW, 5_000_000, 8_000_000, 5_000_000),
        sphere(MAGENTA, -5_000_000, 6_000_000, -5_000_000),
        sphere(YELLOW, 20_000_000, 2_000_000, 0),
        sphere(MAGENTA, 0, 10_000_000, 20_000_000),
    ]
}

#[test]
fn new_builder_is_empty() {
    assert!(WorldBuilder::new().children.is_empty());
}

#[test]
fn reference_objects_are_six_cubes_and_four_spheres() {
    let mut world = WorldBuilder::new();
    world.create_reference_objects();
    assert_eq!(world.children, landmarks());
}

#[test]
fn ground_is_one_gray_slab() {
    let mut world = WorldBuilder::new();
    world.create_ground();
    assert_eq!(world.children, vec![ground()]);
}

#[test]
fn world_is_ground_then_landmarks() {
    let mut world = WorldBuilder::new();
    world.create_world();
    let mut expected = vec![ground()];
    expected.extend(landmarks());
    assert_eq!(world.children, expected);
    assert_eq!(world.children.len(), 11);
}

#[test]
fn creating_twice_appends_again() {
    let mut world = WorldBuilder::new();
    world.create_ground();
    world.create_reference_objects();
    world.create_ground();
    assert_eq!(world.children.len(), 12);
    assert_eq!(world.children[0], ground());
    assert_eq!(world.children[11], ground());
    assert_eq!(world.children[1..11].to_vec(), landmarks());
}
