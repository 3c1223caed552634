//! The fixed scaffolding of the scene: a ground slab and a handful of
//! colored landmarks, as a list of primitives for the host to instantiate.

use vstd::prelude::*;
use crate::vector::{vec3, Vec3};

verus! {

/// An opaque color; each channel is a fraction of full intensity in
/// millionths.
#[derive(Clone, Copy, Debug, PartialEq, Eq, Structural)]
pub struct Color {
    pub r: i32,
    pub g: i32,
    pub b: i32,
}

/// The mesh of a primitive, with its dimensions in millionths.
#[derive(Clone, Copy, Debug, PartialEq, Eq, Structural)]
pub enum Shape {
    Cuboid { size: Vec3 },
    Sphere { radius: i64, height: i64 },
}

/// One mesh instance to place in the scene.
#[derive(Clone, Copy, Debug, PartialEq, Eq, Structural)]
pub struct Primitive {
    pub shape: Shape,
    pub color: Color,
    pub position: Vec3,
}

pub open spec fn red() -> Color {
    Color { r: 1_000_000, g: 0, b: 0 }
}

pub open spec fn green() -> Color {
    Color { r: 0, g: 1_000_000, b: 0 }
}

pub open spec fn blue() -> Color {
    Color { r: 0, g: 0, b: 1_000_000 }
}

pub open spec fn yellow() -> Color {
    Color { r: 1_000_000, g: 1_000_000, b: 0 }
}

pub open spec fn magenta() -> Color {
    Color { r: 1_000_000, g: 0, b: 1_000_000 }
}

pub open spec fn gray() -> Color {
    Color { r: 500_000, g: 500_000, b: 500_000 }
}

/// Where the landmark cube number `i` stands.
pub open spec fn cube_position(i: int) -> Vec3 {
    if i == 0 {
        vec3(10_000_000, 0, 0)
    } else if i == 1 {
        vec3(-10_000_000, 0, 0)
    } else if i == 2 {
        vec3(0, 0, 10_000_000)
    } else if i == 3 {
        vec3(0, 0, -10_000_000)
    } else if i == 4 {
        vec3(15_000_000, 5_000_000, 15_000_000)
    } else {
        vec3(-15_000_000, 3_000_000, -15_000_000)
    }
}

/// Where the landmark sphere number `i` floats.
pub open spec fn sphere_position(i: int) -> Vec3 {
    if i == 0 {
        vec3(5_000_000, 8_000_000, 5_000_000)
    } else if i == 1 {
        vec3(-5_000_000, 6_000_000, -5_000_000)
    } else if i == 2 {
        vec3(20_000_000, 2_000_000, 0)
    } else {
        vec3(0, 10_000_000, 20_000_000)
    }
}

/// Landmark cube number `i`: two units wide, colored red, blue and green
/// in turn.
pub open spec fn cube(i: int) -> Primitive {
    Primitive {
        shape: Shape::Cuboid { size: vec3(2_000_000, 2_000_000, 2_000_000) },
        color: if i % 3 == 0 {
            red()
        } else if i % 3 == 1 {
            blue()
        } else {
            green()
        },
        position: cube_position(i),
    }
}

/// Landmark sphere number `i`: three units across, colored yellow and
/// magenta in turn.
pub open spec fn sphere(i: int) -> Primitive {
    Primitive {
        shape: Shape::Sphere { radius: 1_500_000, height: 3_000_000 },
        color: if i % 2 == 0 {
            yellow()
        } else {
            magenta()
        },
        position: sphere_position(i),
    }
}

/// The landmarks in the order in which they are created: six cubes, then
/// four spheres.
pub open spec fn reference_objects() -> Seq<Primitive> {
    Seq::new(6, |i: int| cube(i)) + Seq::new(4, |i: int| sphere(i))
}

/// The ground: a gray slab of a hundred units by a hundred, half a unit
/// thick, centered two units below the origin.
pub open spec fn ground() -> Primitive {
    Primitive {
        shape: Shape::Cuboid { size: vec3(100_000_000, 500_000, 100_000_000) },
        color: gray(),
        position: vec3(0, -2_000_000, 0),
    }
}

/// Collects the primitives of the static scene, in creation order.
pub struct WorldBuilder {
    pub children: Vec<Primitive>,
}

fn cube_at(i: usize) -> (p: Primitive)
    requires
        i < 6,
    ensures
        p == cube(i as int),
{
    let position = if i == 0 {
        Vec3 { x: 10_000_000, y: 0, z: 0 }
    } else if i == 1 {
        Vec3 { x: -10_000_000, y: 0, z: 0 }
    } else if i == 2 {
        Vec3 { x: 0, y: 0, z: 10_000_000 }
    } else if i == 3 {
        Vec3 { x: 0, y: 0, z: -10_000_000 }
    } else if i == 4 {
        Vec3 { x: 15_000_000, y: 5_000_000, z: 15_000_000 }
    } else {
        Vec3 { x: -15_000_000, y: 3_000_000, z: -15_000_000 }
    };
    let color = if i % 3 == 0 {
        Color { r: 1_000_000, g: 0, b: 0 }
    } else if i % 3 == 1 {
        Color { r: 0, g: 0, b: 1_000_000 }
    } else {
        Color { r: 0, g: 1_000_000, b: 0 }
    };
    Primitive {
        shape: Shape::Cuboid { size: Vec3 { x: 2_000_000, y: 2_000_000, z: 2_000_000 } },
        color,
        position,
    }
}

fn sphere_at(i: usize) -> (p: Primitive)
    requires
        i < 4,
    ensures
        p == sphere(i as int),
{
    let position = if i == 0 {
        Vec3 { x: 5_000_000, y: 8_000_000, z: 5_000_000 }
    } else if i == 1 {
        Vec3 { x: -5_000_000, y: 6_000_000, z: -5_000_000 }
    } else if i == 2 {
        Vec3 { x: 20_000_000, y: 2_000_000, z: 0 }
    } else {
        Vec3 { x: 0, y: 10_000_000, z: 20_000_000 }
    };
    let color = if i % 2 == 0 {
        Color { r: 1_000_000, g: 1_000_000, b: 0 }
    } else {
        Color { r: 1_000_000, g: 0, b: 1_000_000 }
    };
    Primitive { shape: Shape::Sphere { radius: 1_500_000, height: 3_000_000 }, color, position }
}

impl WorldBuilder {
    /// A builder that has created nothing yet.
    pub fn new() -> (w: WorldBuilder)
        ensures
            w.children@ == Seq::<Primitive>::empty(),
    {
        WorldBuilder { children: Vec::new() }
    }

    /// Adds the landmarks after whatever was created before.
    pub fn create_reference_objects(&mut self)
        ensures
            final(self).children@ == old(self).children@ + reference_objects(),
    {
        let ghost before = self.children@;
        let mut i: usize = 0;
        while i < 6
            invariant
                i <= 6,
                self.children@ == before + Seq::new(i as nat, |k: int| cube(k)),
            decreases 6 - i,
        {
            self.children.push(cube_at(i));
            i = i + 1;
        }
        let ghost cubes = self.children@;
        let mut j: usize = 0;
        while j < 4
            invariant
                j <= 4,
                cubes == before + Seq::new(6, |k: int| cube(k)),
                self.children@ == cubes + Seq::new(j as nat, |k: int| sphere(k)),
            decreases 4 - j,
        {
            self.children.push(sphere_at(j));
            j = j + 1;
        }
    }

    /// Adds the ground after whatever was created before.
    pub fn create_ground(&mut self)
        ensures
            final(self).children@ == old(self).children@.push(ground()),
    {
        self.children.push(
            Primitive {
                shape: Shape::Cuboid {
                    size: Vec3 { x: 100_000_000, y: 500_000, z: 100_000_000 },
                },
                color: Color { r: 500_000, g: 500_000, b: 500_000 },
                position: Vec3 { x: 0, y: -2_000_000, z: 0 },
            },
        );
    }

    /// Adds the whole static scene: the ground first, then the landmarks.
    pub fn create_world(&mut self)
        ensures
            final(self).children@ == old(self).children@.push(ground()) + reference_objects(),
    {
        self.create_ground();
        self.create_reference_objects();
    }
}

} // verus!
