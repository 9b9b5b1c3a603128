use clusterjunk::assets::{build_meshes, ColliderShape, MeshAsset, MeshAssets, HALF_UNIT};
use clusterjunk::doodad::{spawn_at_free_point, spawn_doodads, spawn_point, SpawnTimer, SPAWN_PERIOD_US};
use clusterjunk::groups::{CollisionGroups, Groups, InteractionGroups, ALL, DOODAD, LEVEL, PLAYER};
use clusterjunk::level::spawn_floor;
use clusterjunk::physics::{ColliderBundle, Placement, PlayerBundle, RigidBodyKind};
use clusterjunk::player::{
    combine_with_doodads, move_player, Impulse, Velocity, MAX_ANGULAR_SPEED, MAX_LINEAR_SPEED,
};
use clusterjunk::world::{tagged_doodad, Body};

fn assets() -> MeshAssets {
    build_meshes(1, 2, 3, 4)
}

fn doodad_body(entity: u64) -> Body {
    Body {
        entity,
        player: false,
        doodad: true,
        rigid_body: true,
        groups: Some(Groups::doodad()),
        parent: None,
        material: 2,
    }
}

fn player_body(entity: u64) -> Body {
    Body {
        entity,
        player: true,
        doodad: false,
        rigid_body: true,
        groups: Some(Groups::player()),
        parent: None,
        material: 2,
    }
}

#[test]
fn group_bits_are_exclusive() {
    assert_eq!(PLAYER & DOODAD, 0);
    assert_eq!(PLAYER & LEVEL, 0);
    assert_eq!(DOODAD & LEVEL, 0);
    assert_eq!(Groups::all().bits(), PLAYER | DOODAD | LEVEL);
    assert_eq!(ALL, 0b0111);
}

#[test]
fn group_tables() {
    assert_eq!(Groups::player(), CollisionGroups { memberships: 0b0001, filters: 0b0100 });
    assert_eq!(
        Groups::player_interaction(),
        InteractionGroups { memberships: 0b0011, filter: 0b0010 }
    );
    assert_eq!(Groups::doodad(), CollisionGroups { memberships: 0b0010, filters: 0b0110 });
    assert_eq!(Groups::level(), CollisionGroups { memberships: 0b0100, filters: 0b0111 });
}

#[test]
fn group_filters_are_symmetric_where_intended() {
    let d = Groups::doodad();
    let l = Groups::level();
    let p = Groups::player();
    assert!(d.collides_with(&d));
    assert!(d.collides_with(&l) && l.collides_with(&d));
    assert!(p.collides_with(&l) && l.collides_with(&p));
    assert!(!p.collides_with(&d) && !d.collides_with(&p));
    let query = Groups::player_interaction();
    assert!(query.test(&d.to_interaction()));
    assert!(d.to_interaction().test(&query));
    assert!(!query.test(&l.to_interaction()));
}

#[test]
fn meshes_and_player_material() {
    let a = assets();
    assert_eq!(
        a.square,
        MeshAsset { mesh: 1, material: 2, collider: ColliderShape::Cuboid { half_x: 500, half_y: 500 } }
    );
    assert_eq!(a.circle, MeshAsset { mesh: 3, material: 4, collider: ColliderShape::Ball { radius: HALF_UNIT } });
    let p = PlayerBundle::default();
    assert_eq!(p.collision_groups, Groups::player());
    assert_eq!(p.restitution, 500);
    assert_eq!(p.friction, 5000);
}

#[test]
fn collider_bundle_with_transform() {
    let a = assets();
    let b = ColliderBundle::from_asset(&a.circle);
    assert_eq!(b.placement, Placement::identity());
    assert_eq!(b.collision_groups, Groups::doodad());
    assert_eq!(b.rigidbody, RigidBodyKind::Dynamic);
    let at = Placement { x: -3, y: 7, z: 1, scale_x: 2, scale_y: 5 };
    let moved = b.with_transform(at);
    assert_eq!(moved.placement, at);
    assert_eq!(moved.collider, ColliderShape::Ball { radius: 500 });
    assert_eq!(moved.mesh, 3);
    assert_eq!(moved.material, 4);
}

#[test]
fn floor_of_the_level() {
    let f = spawn_floor(&assets());
    assert_eq!(f.placement, Placement { x: 0, y: -100, z: 0, scale_x: 1000, scale_y: 15 });
    assert_eq!(f.collision_groups, Groups::level());
    assert_eq!(f.mesh, 1);
    assert_eq!(f.collider, ColliderShape::Cuboid { half_x: 500, half_y: 500 });
}

#[test]
fn timer_fires_once_a_period_and_keeps_the_rest() {
    let mut t = SpawnTimer::new(1_000);
    assert!(!t.tick(400));
    assert_eq!(t.elapsed_us, 400);
    assert!(!t.tick(599));
    assert!(t.tick(1));
    assert_eq!(t.elapsed_us, 0);
    assert!(t.tick(2_500));
    assert_eq!(t.elapsed_us, 500);
    assert!(t.tick(u64::MAX));
    assert_eq!(t.elapsed_us as u128, (500u128 + u64::MAX as u128) % 1_000);
}

#[test]
fn spawn_after_one_second_on_empty_level() {
    let a = assets();
    let mut t = SpawnTimer::new(SPAWN_PERIOD_US);
    let hits: Vec<u64> = Vec::new();
    let bodies: Vec<Body> = Vec::new();
    assert_eq!(spawn_doodads(&mut t, 999_999, &hits, &bodies, &a), None);
    let made = spawn_doodads(&mut t, 1, &hits, &bodies, &a).expect("a doodad");
    assert_eq!(made.placement, Placement { x: 100, y: 0, z: 10, scale_x: 20, scale_y: 20 });
    assert_eq!(made.placement, spawn_point());
    assert_eq!(made.collision_groups, Groups::doodad());
    assert_eq!(made.rigidbody, RigidBodyKind::Dynamic);
    assert_eq!(made.collider, a.square.collider);
    assert_eq!(made.mesh, 1);
}

#[test]
fn spawn_blocked_by_tagged_doodad() {
    let a = assets();
    let mut t = SpawnTimer::new(SPAWN_PERIOD_US);
    let bodies = vec![player_body(1), doodad_body(7)];
    let hits = vec![1u64, 7];
    assert_eq!(spawn_doodads(&mut t, SPAWN_PERIOD_US, &hits, &bodies, &a), None);
    assert_eq!(t.elapsed_us, 0);
    assert_eq!(spawn_doodads(&mut t, 3 * SPAWN_PERIOD_US, &hits, &bodies, &a), None);
}

#[test]
fn spawn_not_blocked_by_other_shapes() {
    let a = assets();
    let mut t = SpawnTimer::new(SPAWN_PERIOD_US);
    let mut absorbed = doodad_body(7);
    absorbed.doodad = false;
    absorbed.player = true;
    let bodies = vec![player_body(1), absorbed, doodad_body(9)];
    let hits = vec![1u64, 7, 42];
    assert!(tagged_doodad(&bodies, 9));
    assert!(!tagged_doodad(&bodies, 7));
    assert!(spawn_doodads(&mut t, SPAWN_PERIOD_US, &hits, &bodies, &a).is_some());
}

#[test]
fn movement_turns_against_the_input() {
    let mut v = Velocity { angvel: 0, linvel_x: 5, linvel_y: -9 };
    move_player(Some(1000), 16_000, &mut v);
    assert_eq!(v, Velocity { angvel: -960_000_000, linvel_x: 5, linvel_y: -9 });
    move_player(Some(-500), 10_000, &mut v);
    assert_eq!(v.angvel, -960_000_000 + 300_000_000);
    move_player(Some(1), 1, &mut v);
    assert_eq!(v.angvel, -660_000_060);
}

#[test]
fn movement_clamps_speeds() {
    let mut v = Velocity { angvel: 29_000_000_000, linvel_x: -400_000_000_000, linvel_y: 1 };
    move_player(Some(-1000), 100_000, &mut v);
    assert_eq!(v.angvel, MAX_ANGULAR_SPEED);
    assert_eq!(v.linvel_x, -MAX_LINEAR_SPEED);
    let mut w = Velocity { angvel: 0, linvel_x: 0, linvel_y: 0 };
    move_player(Some(i32::MAX), u64::MAX, &mut w);
    assert_eq!(w.angvel, -MAX_ANGULAR_SPEED);
    let mut x = Velocity { angvel: i64::MIN, linvel_x: i64::MAX, linvel_y: 0 };
    move_player(Some(i32::MIN), u64::MAX, &mut x);
    assert_eq!(x.angvel, MAX_ANGULAR_SPEED);
    assert_eq!(x.linvel_x, MAX_LINEAR_SPEED);
}

#[test]
fn no_input_leaves_velocity_alone() {
    let mut v = Velocity { angvel: 99_000_000_000, linvel_x: -500_000_000_000, linvel_y: 3 };
    move_player(None, 16_000, &mut v);
    assert_eq!(v, Velocity { angvel: 99_000_000_000, linvel_x: -500_000_000_000, linvel_y: 3 });
}

#[test]
fn combine_absorbs_every_reported_doodad() {
    let mut bodies = vec![player_body(1), doodad_body(5), doodad_body(6), doodad_body(8)];
    let hits = vec![8u64, 1, 5, 5, 99];
    let joined = combine_with_doodads(true, 1, 4, &hits, &mut bodies);
    assert_eq!(joined, vec![5u64, 8]);
    assert_eq!(bodies[0], player_body(1));
    assert_eq!(bodies[2], doodad_body(6));
    for i in [1usize, 3] {
        let b = bodies[i];
        assert_eq!(b.parent, Some(1));
        assert!(!b.rigid_body);
        assert!(b.player);
        assert!(!b.doodad);
        assert_eq!(b.groups, Some(Groups::player()));
        assert_eq!(b.material, 4);
    }
    assert_eq!(bodies[1].entity, 5);
    assert_eq!(bodies[3].entity, 8);
    let before = bodies.clone();
    let again = combine_with_doodads(true, 1, 4, &hits, &mut bodies);
    assert!(again.is_empty());
    assert_eq!(bodies, before);
}

#[test]
fn combine_without_doodads_is_noop() {
    let start = vec![player_body(1), doodad_body(5)];
    let mut bodies = start.clone();
    let joined = combine_with_doodads(true, 1, 4, &vec![1u64, 77], &mut bodies);
    assert!(joined.is_empty());
    assert_eq!(bodies, start);
    let joined = combine_with_doodads(true, 1, 4, &Vec::new(), &mut bodies);
    assert!(joined.is_empty());
    assert_eq!(bodies, start);
}

#[test]
fn combine_needs_the_action() {
    let start = vec![player_body(1), doodad_body(5)];
    let mut bodies = start.clone();
    let joined = combine_with_doodads(false, 1, 4, &vec![5u64], &mut bodies);
    assert!(joined.is_empty());
    assert_eq!(bodies, start);
}

#[test]
fn player_spawns_as_the_circle() {
    let s = clusterjunk::player::spawn_player(&assets());
    assert_eq!(s.mesh, 3);
    assert_eq!(s.material, 4);
    assert_eq!(s.collider, ColliderShape::Ball { radius: 500 });
    assert_eq!(s.placement, Placement { x: 0, y: 0, z: 20, scale_x: 30, scale_y: 30 });
    assert_eq!(s.rigidbody, RigidBodyKind::Dynamic);
    assert_eq!(s.bundle, PlayerBundle::default());
    assert_eq!(s.angular_damping, 100);
    assert_eq!(s.velocity, Velocity { angvel: 0, linvel_x: 0, linvel_y: 0 });
    assert_eq!(s.impulse, Impulse { linear_x: 0, linear_y: 0, torque: 0 });
}

#[test]
fn collider_bundle_from_asset_reference() {
    let a = assets();
    let b = ColliderBundle::from(&a.square);
    assert_eq!(b, ColliderBundle::from_asset(&a.square));
    assert_eq!(b.collider, ColliderShape::Cuboid { half_x: 500, half_y: 500 });
    assert_eq!(b.mesh, 1);
    assert_eq!(b.material, 2);
}

#[test]
fn spawn_attempt_after_firing() {
    let a = assets();
    let empty: Vec<Body> = Vec::new();
    let made = spawn_at_free_point(&Vec::new(), &empty, &a).expect("a doodad");
    assert_eq!(made.placement, spawn_point());
    assert_eq!(made, ColliderBundle::from(&a.square).with_transform(spawn_point()));
    let bodies = vec![doodad_body(3)];
    assert_eq!(spawn_at_free_point(&vec![3u64], &bodies, &a), None);
    assert!(spawn_at_free_point(&vec![8u64], &bodies, &a).is_some());
}
