use vstd::prelude::*;

verus! {

/// A collider shape; lengths are in thousandths of a world unit.
#[derive(Clone, Copy, Debug, PartialEq, Eq, Structural)]
pub enum ColliderShape {
    Cuboid { half_x: u32, half_y: u32 },
    Ball { radius: u32 },
}

/// Half of a unit length, in thousandths.
pub const HALF_UNIT: u32 = 500;

/// A renderable mesh with its material and the collider that matches it.
/// Meshes and materials are engine assets, known here by their id.
#[derive(Clone, Copy, Debug, PartialEq, Eq, Structural)]
pub struct MeshAsset {
    pub mesh: u64,
    pub material: u64,
    pub collider: ColliderShape,
}

/// The shapes that the player, the doodads and the level are built from.
#[derive(Clone, Copy, Debug, PartialEq, Eq, Structural)]
pub struct MeshAssets {
    pub square: MeshAsset,
    pub circle: MeshAsset,
}

/// The unit square (half extents of one half) and the unit-diameter circle,
/// each over the mesh and material that the engine stored for it.
pub fn build_meshes(
    square_mesh: u64,
    square_material: u64,
    circle_mesh: u64,
    circle_material: u64,
) -> (r: MeshAssets)
    ensures
        r.square == (MeshAsset {
            mesh: square_mesh,
            material: square_material,
            collider: ColliderShape::Cuboid { half_x: HALF_UNIT, half_y: HALF_UNIT },
        }),
        r.circle == (MeshAsset {
            mesh: circle_mesh,
            material: circle_material,
            collider: ColliderShape::Ball { radius: HALF_UNIT },
        }),
{
    let square = MeshAsset {
        mesh: square_mesh,
        material: square_material,
        collider: ColliderShape::Cuboid { half_x: HALF_UNIT, half_y: HALF_UNIT },
    };
    let circle = MeshAsset {
        mesh: circle_mesh,
        material: circle_material,
        collider: ColliderShape::Ball { radius: HALF_UNIT },
    };
    MeshAssets { square, circle }
}

} // verus!
