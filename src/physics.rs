use vstd::prelude::*;
use crate::assets::{ColliderShape, MeshAsset};
use crate::groups::{doodad_groups, player_groups, CollisionGroups, Groups};

verus! {

/// Where a body stands, in whole world units: a translation, a depth used
/// for drawing order, and a scale on each axis. Rotation starts at zero.
#[derive(Clone, Copy, Debug, PartialEq, Eq, Structural)]
pub struct Placement {
    pub x: i32,
    pub y: i32,
    pub z: i32,
    pub scale_x: u32,
    pub scale_y: u32,
}

impl Placement {
    /// At the origin, unscaled.
    pub fn identity() -> (r: Placement)
        ensures
            r == (Placement { x: 0, y: 0, z: 0, scale_x: 1, scale_y: 1 }),
    {
        Placement { x: 0, y: 0, z: 0, scale_x: 1, scale_y: 1 }
    }
}

/// How the physics engine moves a body.
#[derive(Clone, Copy, Debug, PartialEq, Eq, Structural)]
pub enum RigidBodyKind {
    Dynamic,
    Fixed,
}

/// Physical material of the player's body: restitution 0.5 and friction 5,
/// in thousandths.
#[derive(Clone, Copy, Debug, PartialEq, Eq, Structural)]
pub struct PlayerBundle {
    pub collision_groups: CollisionGroups,
    pub restitution: u32,
    pub friction: u32,
}

pub const PLAYER_RESTITUTION: u32 = 500;

pub const PLAYER_FRICTION: u32 = 5000;

impl Default for PlayerBundle {
    fn default() -> (r: PlayerBundle)
        ensures
            r.collision_groups == player_groups(),
            r.restitution == PLAYER_RESTITUTION,
            r.friction == PLAYER_FRICTION,
    {
        PlayerBundle {
            collision_groups: Groups::player(),
            restitution: PLAYER_RESTITUTION,
            friction: PLAYER_FRICTION,
        }
    }
}

/// Everything a free, simulated shape is spawned with.
#[derive(Clone, Copy, Debug, PartialEq, Eq, Structural)]
pub struct ColliderBundle {
    pub mesh: u64,
    pub material: u64,
    pub placement: Placement,
    pub collision_groups: CollisionGroups,
    pub collider: ColliderShape,
    pub rigidbody: RigidBodyKind,
}

pub open spec fn collider_bundle_of(asset: MeshAsset) -> ColliderBundle {
    ColliderBundle {
        mesh: asset.mesh,
        material: asset.material,
        placement: Placement { x: 0, y: 0, z: 0, scale_x: 1, scale_y: 1 },
        collision_groups: doodad_groups(),
        collider: asset.collider,
        rigidbody: RigidBodyKind::Dynamic,
    }
}

impl<'a> From<&'a MeshAsset> for ColliderBundle {
    /// A dynamic body of the asset's shape in the doodad groups, at the origin.
    fn from(asset: &'a MeshAsset) -> (r: ColliderBundle) {
        ColliderBundle::from_asset(asset)
    }
}

impl<'a> vstd::std_specs::convert::FromSpecImpl<&'a MeshAsset> for ColliderBundle {
    open spec fn obeys_from_spec() -> bool {
        true
    }

    open spec fn from_spec(asset: &'a MeshAsset) -> ColliderBundle {
        collider_bundle_of(*asset)
    }
}

impl ColliderBundle {
    /// A dynamic body of the asset's shape in the doodad groups, at the origin.
    pub fn from_asset(asset: &MeshAsset) -> (r: ColliderBundle)
        ensures
            r == collider_bundle_of(*asset),
    {
        ColliderBundle {
            mesh: asset.mesh,
            material: asset.material,
            placement: Placement::identity(),
            collision_groups: Groups::doodad(),
            collider: asset.collider,
            rigidbody: RigidBodyKind::Dynamic,
        }
    }

    /// The same bundle, placed elsewhere.
    pub fn with_transform(self, transform: Placement) -> (r: ColliderBundle)
        ensures
            r == (ColliderBundle { placement: transform, ..self }),
    {
        ColliderBundle { placement: transform, ..self }
    }
}

} // verus!
