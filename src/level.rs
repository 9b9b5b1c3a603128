use vstd::prelude::*;
use crate::assets::{ColliderShape, MeshAssets};
use crate::groups::{level_groups, CollisionGroups, Groups};
use crate::physics::Placement;

verus! {

/// The floor: a static collider, with no rigid body, in the level groups.
#[derive(Clone, Copy, Debug, PartialEq, Eq, Structural)]
pub struct FloorBundle {
    pub mesh: u64,
    pub material: u64,
    pub collision_groups: CollisionGroups,
    pub collider: ColliderShape,
    pub placement: Placement,
}

/// The floor's height, 100 units below the origin.
pub const FLOOR_Y: i32 = -100;

/// The floor lies 100 units below the origin, 1000 units wide and 15 high.
pub open spec fn floor_placement() -> Placement {
    Placement { x: 0, y: FLOOR_Y, z: 0, scale_x: 1000, scale_y: 15 }
}

/// The one floor of the level, built from the unit square.
pub fn spawn_floor(meshes: &MeshAssets) -> (r: FloorBundle)
    ensures
        r == (FloorBundle {
            mesh: meshes.square.mesh,
            material: meshes.square.material,
            collision_groups: level_groups(),
            collider: meshes.square.collider,
            placement: floor_placement(),
        }),
{
    FloorBundle {
        mesh: meshes.square.mesh,
        material: meshes.square.material,
        collision_groups: Groups::level(),
        collider: meshes.square.collider,
        placement: Placement { x: 0, y: FLOOR_Y, z: 0, scale_x: 1000, scale_y: 15 },
    }
}

} // verus!
