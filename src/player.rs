use vstd::prelude::*;
use crate::assets::{ColliderShape, MeshAssets};
use crate::groups::{player_groups, Groups};
use crate::physics::{Placement, PlayerBundle, RigidBodyKind, PLAYER_FRICTION, PLAYER_RESTITUTION};
use crate::world::Body;

verus! {

/// Tag of the player's body and of every part absorbed into it.
#[derive(Clone, Copy, Debug, PartialEq, Eq, Structural)]
pub struct Player;

/// Velocities in billionths: radians per second for the spin, world units
/// per second along each axis.
#[derive(Clone, Copy, Debug, PartialEq, Eq, Structural)]
pub struct Velocity {
    pub angvel: i64,
    pub linvel_x: i64,
    pub linvel_y: i64,
}

/// An impulse applied to a body on the next physics step, in billionths:
/// along each axis, and around the body's centre.
#[derive(Clone, Copy, Debug, PartialEq, Eq, Structural)]
pub struct Impulse {
    pub linear_x: i64,
    pub linear_y: i64,
    pub torque: i64,
}

/// Everything the player's body is created with.
#[derive(Clone, Copy, Debug, PartialEq, Eq, Structural)]
pub struct PlayerSpawn {
    pub mesh: u64,
    pub material: u64,
    pub collider: ColliderShape,
    pub placement: Placement,
    pub rigidbody: RigidBodyKind,
    pub bundle: PlayerBundle,
    /// Angular damping, in thousandths.
    pub angular_damping: u32,
    pub velocity: Velocity,
    pub impulse: Impulse,
}

/// The player starts as a ball of 30 units across at the origin, drawn
/// above the doodads.
pub open spec fn player_start() -> Placement {
    Placement { x: 0, y: 0, z: 20, scale_x: 30, scale_y: 30 }
}

pub const PLAYER_ANGULAR_DAMPING: u32 = 100;

/// The player's body: a dynamic circle in the player groups, at rest and
/// with no impulse pending, with light angular damping.
pub fn spawn_player(meshes: &MeshAssets) -> (r: PlayerSpawn)
    ensures
        r == (PlayerSpawn {
            mesh: meshes.circle.mesh,
            material: meshes.circle.material,
            collider: meshes.circle.collider,
            placement: player_start(),
            rigidbody: RigidBodyKind::Dynamic,
            bundle: PlayerBundle {
                collision_groups: player_groups(),
                restitution: PLAYER_RESTITUTION,
                friction: PLAYER_FRICTION,
            },
            angular_damping: PLAYER_ANGULAR_DAMPING,
            velocity: Velocity { angvel: 0, linvel_x: 0, linvel_y: 0 },
            impulse: Impulse { linear_x: 0, linear_y: 0, torque: 0 },
        }),
{
    PlayerSpawn {
        mesh: meshes.circle.mesh,
        material: meshes.circle.material,
        collider: meshes.circle.collider,
        placement: Placement { x: 0, y: 0, z: 20, scale_x: 30, scale_y: 30 },
        rigidbody: RigidBodyKind::Dynamic,
        bundle: PlayerBundle::default(),
        angular_damping: PLAYER_ANGULAR_DAMPING,
        velocity: Velocity { angvel: 0, linvel_x: 0, linvel_y: 0 },
        impulse: Impulse { linear_x: 0, linear_y: 0, torque: 0 },
    }
}

/// Fastest spin: 30 radians per second.
pub const MAX_ANGULAR_SPEED: i64 = 30_000_000_000;

/// Fastest horizontal speed: 300 world units per second.
pub const MAX_LINEAR_SPEED: i64 = 300_000_000_000;

/// Spin gained per second of full input, in radians per second.
pub const ANGULAR_ACCELERATION: i64 = 60;

pub open spec fn clamp(v: int, lo: int, hi: int) -> int {
    if v < lo {
        lo
    } else if v > hi {
        hi
    } else {
        v
    }
}

/// The change of spin for an input axis in thousandths held for `dt_us`
/// microseconds, in billionths of a radian per second.
pub open spec fn angular_delta(axis: i32, dt_us: u64) -> int {
    axis * ANGULAR_ACCELERATION * dt_us
}

/// The velocity after one tick under a present input.
pub open spec fn moved(v: Velocity, axis: i32, dt_us: u64) -> Velocity {
    Velocity {
        angvel: clamp(v.angvel - angular_delta(axis, dt_us), -MAX_ANGULAR_SPEED as int, MAX_ANGULAR_SPEED as int) as i64,
        linvel_x: clamp(v.linvel_x as int, -MAX_LINEAR_SPEED as int, MAX_LINEAR_SPEED as int) as i64,
        linvel_y: v.linvel_y,
    }
}

fn clamp_i128(v: i128, lo: i64, hi: i64) -> (r: i64)
    requires
        lo <= hi,
    ensures
        r == clamp(v as int, lo as int, hi as int),
{
    if v < lo as i128 {
        lo
    } else if v > hi as i128 {
        hi
    } else {
        v as i64
    }
}

/// One tick of player control. With a horizontal axis present (in
/// thousandths, positive to the right), the spin loses input times
/// acceleration times elapsed time, so that a push to the left turns the
/// ball counter-clockwise; then spin and horizontal speed are held within
/// their maxima. Without input nothing changes.
pub fn move_player(movement: Option<i32>, dt_us: u64, vel: &mut Velocity)
    ensures
        match movement {
            Some(axis) => *final(vel) == moved(*old(vel), axis, dt_us),
            None => *final(vel) == *old(vel),
        },
        movement is Some ==> -MAX_ANGULAR_SPEED <= final(vel).angvel <= MAX_ANGULAR_SPEED,
        movement is Some ==> -MAX_LINEAR_SPEED <= final(vel).linvel_x <= MAX_LINEAR_SPEED,
{
    match movement {
        None => {},
        Some(axis) => {
            let a = axis as i128;
            let t = dt_us as i128;
            assert(-0x80_0000_0000 <= a * 60 <= 0x80_0000_0000);
            assert(-0x80_0000_0000 * 0x1_0000_0000_0000_0000 <= (a * 60) * t <= 0x80_0000_0000
                * 0x1_0000_0000_0000_0000) by (nonlinear_arith)
                requires
                    -0x80_0000_0000 <= a * 60 <= 0x80_0000_0000,
                    0 <= t <= 0xffff_ffff_ffff_ffff,
            ;
            let delta = a * (ANGULAR_ACCELERATION as i128) * t;
            let spin = vel.angvel as i128 - delta;
            vel.angvel = clamp_i128(spin, -MAX_ANGULAR_SPEED, MAX_ANGULAR_SPEED);
            vel.linvel_x = clamp_i128(vel.linvel_x as i128, -MAX_LINEAR_SPEED, MAX_LINEAR_SPEED);
        },
    }
}

/// Whether the combine action takes this body: a free doodad that the query
/// around the player reported.
pub open spec fn absorbable(b: Body, hits: Seq<u64>) -> bool {
    b.doodad && !b.player && hits.contains(b.entity)
}

/// A body once it has become a part of the player: a child of the player's
/// root, no longer simulated on its own, tagged, grouped and drawn as the
/// player.
pub open spec fn absorbed(b: Body, root: u64, material: u64) -> Body {
    Body {
        entity: b.entity,
        player: true,
        doodad: false,
        rigid_body: false,
        groups: Some(player_groups()),
        parent: Some(root),
        material,
    }
}

pub open spec fn combine_one(b: Body, hits: Seq<u64>, root: u64, material: u64) -> Body {
    if absorbable(b, hits) {
        absorbed(b, root, material)
    } else {
        b
    }
}

/// All bodies after one combine action.
pub open spec fn combined(bodies: Seq<Body>, hits: Seq<u64>, root: u64, material: u64) -> Seq<Body> {
    Seq::new(bodies.len(), |i: int| combine_one(bodies[i], hits, root, material))
}

/// The entities one combine action absorbs, in the order of `bodies`.
pub open spec fn absorbed_entities(bodies: Seq<Body>, hits: Seq<u64>) -> Seq<u64>
    decreases bodies.len(),
{
    if bodies.len() == 0 {
        Seq::empty()
    } else {
        let rest = absorbed_entities(bodies.drop_last(), hits);
        if absorbable(bodies.last(), hits) {
            rest.push(bodies.last().entity)
        } else {
            rest
        }
    }
}

fn contains_entity(hits: &Vec<u64>, e: u64) -> (r: bool)
    ensures
        r == hits@.contains(e),
{
    let mut i: usize = 0;
    while i < hits.len()
        invariant
            0 <= i <= hits@.len(),
            forall|k: int| 0 <= k < i ==> hits@[k] != e,
        decreases hits@.len() - i,
    {
        if hits[i] == e {
            return true;
        }
        i = i + 1;
    }
    false
}

/// The combine action. When `combine` is set, every free doodad among
/// `hits` (the entities that the query around the player's shapes reported)
/// joins the player under `root`: it is reparented, loses its own rigid
/// body, its doodad tag and its groups, and takes the player's tag and
/// groups, and is drawn with the player's `material`. Every match is taken,
/// not only the first. The entities that
/// joined are returned, so that their transforms can be rebased onto the
/// player's frame. Without `combine` nothing changes.
pub fn combine_with_doodads(
    combine: bool,
    root: u64,
    material: u64,
    hits: &Vec<u64>,
    bodies: &mut Vec<Body>,
) -> (joined: Vec<u64>)
    ensures
        combine ==> final(bodies)@ == combined(old(bodies)@, hits@, root, material),
        combine ==> joined@ == absorbed_entities(old(bodies)@, hits@),
        !combine ==> final(bodies)@ == old(bodies)@,
        !combine ==> joined@.len() == 0,
{
    let mut joined: Vec<u64> = Vec::new();
    if !combine {
        return joined;
    }
    let ghost before = bodies@;
    let mut i: usize = 0;
    while i < bodies.len()
        invariant
            0 <= i <= bodies@.len(),
            bodies@.len() == before.len(),
            forall|k: int| 0 <= k < i ==> bodies@[k] == combine_one(before[k], hits@, root, material),
            forall|k: int| i <= k < bodies@.len() ==> bodies@[k] == before[k],
            joined@ == absorbed_entities(before.take(i as int), hits@),
        decreases bodies@.len() - i,
    {
        let b = bodies[i];
        assert(before.take(i + 1).drop_last() == before.take(i as int));
        if b.doodad && !b.player && contains_entity(hits, b.entity) {
            bodies.set(
                i,
                Body {
                    entity: b.entity,
                    player: true,
                    doodad: false,
                    rigid_body: false,
                    groups: Some(Groups::player()),
                    parent: Some(root),
                    material,
                },
            );
            joined.push(b.entity);
        }
        i = i + 1;
    }
    assert(before.take(before.len() as int) == before);
    assert(bodies@ == combined(before, hits@, root, material));
    joined
}

/// After a combine action every reported free doodad is a child of the
/// player's root, has no rigid body of its own, carries the player's tag,
/// groups and material and no longer the doodad tag; every other body is
/// unchanged.
pub proof fn lemma_combine_absorbs_hits(bodies: Seq<Body>, hits: Seq<u64>, root: u64, material: u64)
    ensures
        combined(bodies, hits, root, material).len() == bodies.len(),
        forall|i: int|
            0 <= i < bodies.len() && absorbable(#[trigger] bodies[i], hits) ==> {
                let after = combined(bodies, hits, root, material)[i];
                &&& after.entity == bodies[i].entity
                &&& after.parent == Some(root)
                &&& !after.rigid_body
                &&& after.player
                &&& !after.doodad
                &&& after.groups == Some(player_groups())
                &&& after.material == material
            },
        forall|i: int|
            0 <= i < bodies.len() && !absorbable(#[trigger] bodies[i], hits)
                ==> combined(bodies, hits, root, material)[i] == bodies[i],
{
}

/// A combine action that meets no free doodad changes nothing and joins
/// nothing.
pub proof fn lemma_combine_without_doodads_is_noop(
    bodies: Seq<Body>,
    hits: Seq<u64>,
    root: u64,
    material: u64,
)
    requires
        forall|i: int| 0 <= i < bodies.len() ==> !absorbable(#[trigger] bodies[i], hits),
    ensures
        combined(bodies, hits, root, material) == bodies,
        absorbed_entities(bodies, hits).len() == 0,
    decreases bodies.len(),
{
    assert(combined(bodies, hits, root, material) =~= bodies);
    if bodies.len() > 0 {
        let rest = bodies.drop_last();
        assert forall|i: int| 0 <= i < rest.len() implies !absorbable(#[trigger] rest[i], hits) by {
            assert(rest[i] == bodies[i]);
        }
        lemma_combine_without_doodads_is_noop(rest, hits, root, material);
        assert(!absorbable(bodies[bodies.len() - 1], hits));
    }
}

/// No body is absorbed twice: a second combine action over the same reports
/// joins nothing and changes nothing.
pub proof fn lemma_combine_idempotent(bodies: Seq<Body>, hits: Seq<u64>, root: u64, material: u64)
    ensures
        combined(combined(bodies, hits, root, material), hits, root, material) == combined(bodies, hits, root, material),
        absorbed_entities(combined(bodies, hits, root, material), hits).len() == 0,
{
    let once = combined(bodies, hits, root, material);
    assert forall|i: int| 0 <= i < once.len() implies !absorbable(#[trigger] once[i], hits) by {
        assert(once[i] == combine_one(bodies[i], hits, root, material));
    }
    lemma_combine_without_doodads_is_noop(once, hits, root, material);
}

} // verus!
