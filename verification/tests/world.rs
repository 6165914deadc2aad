//! Model-level tests: world creation, the entity layout, input handling,
//! the handle containers' error behavior, and the spawner's geometry.

use car_sim::GameContainer;
use car_sim::GameKeys;
use car_sim::GameKeysContainer;
use car_sim::components::MilliVec3;
use car_sim::components::PhysicsType;
use car_sim::components::PlayerCar;
use car_sim::entities::create_floor;
use car_sim::entities::create_player;
use car_sim::entities::create_ramp;
use car_sim::entities::ramp_profile_points;
use car_sim::resources::PhysicsError;
use car_sim::resources::insert_resources;
use car_sim::store::EntityStore;
use car_sim::store::PendingEntities;
use car_sim::systems::init::RampPlacement;
use car_sim::systems::movement::decide_controls;

fn keys(accelerate: bool, brakes: bool, left: bool, right: bool) -> GameKeysContainer {
    let mut k = GameKeysContainer::new();
    k.set(GameKeys::Acceleration.index(), accelerate);
    k.set(GameKeys::Brakes.index(), brakes);
    k.set(GameKeys::Left.index(), left);
    k.set(GameKeys::Right.index(), right);
    k
}

#[test]
fn create_spawns_terrain_and_player() {
    let game = GameContainer::create(&Vec::new()).expect("world creation");
    let store = game.store();
    assert_eq!(store.len(), 2);
    assert_eq!(store.name(0).unwrap().name, ['m', 'a', 'p', '0', '0']);
    assert_eq!(store.name(1).unwrap().name, ['c', 'a', 'r', '0', '0']);
    let terrain = store.link(0).as_ref().unwrap();
    let player = store.link(1).as_ref().unwrap();
    assert!(matches!(terrain.object_type, PhysicsType::Static));
    assert!(matches!(player.object_type, PhysicsType::Dynamic));
    assert!(store.player(0).is_none());
}

#[test]
fn player_starts_airborne() {
    let game = GameContainer::create(&Vec::new()).expect("world creation");
    let tag = game.store().player(1).unwrap();
    assert_eq!(tag, PlayerCar { touching_ground: false });
}

#[test]
fn create_spawns_requested_ramps() {
    let mut ramps = Vec::new();
    ramps.push(RampPlacement {
        pos: MilliVec3::new(10_000, 0, 20_000),
        rot: MilliVec3::new(0, 1_570, 0),
    });
    ramps.push(RampPlacement {
        pos: MilliVec3::new(-30_000, 0, 40_000),
        rot: MilliVec3::new(0, 3_141, 0),
    });
    let game = GameContainer::create(&ramps).expect("world creation");
    let store = game.store();
    assert_eq!(store.len(), 4);
    for e in 2..4 {
        assert_eq!(store.name(e).unwrap().name, ['r', 'a', 'm', 'p', '0']);
        let link = store.link(e).as_ref().unwrap();
        assert!(matches!(link.object_type, PhysicsType::Static));
        assert!(store.player(e).is_none());
    }
}

#[test]
fn keys_container_round_trip() {
    let mut k = GameKeysContainer::new();
    for idx in 0..4 {
        assert!(!k.get(idx));
    }
    k.set(GameKeys::Brakes.index(), true);
    assert!(!k.get(GameKeys::Acceleration.index()));
    assert!(k.get(GameKeys::Brakes.index()));
    k.set(GameKeys::Brakes.index(), false);
    assert!(!k.get(GameKeys::Brakes.index()));
}

#[test]
fn brake_overrides_accelerate() {
    let (impulse, _) = decide_controls(&keys(true, true, false, false));
    assert_eq!(impulse.x, -120_000);
    let (impulse, _) = decide_controls(&keys(true, false, false, false));
    assert_eq!(impulse.x, 320_000);
    let (impulse, _) = decide_controls(&keys(false, true, false, false));
    assert_eq!(impulse.x, -120_000);
    let (impulse, _) = decide_controls(&keys(false, false, false, false));
    assert_eq!(impulse.x, 0);
}

#[test]
fn steer_right_overrides_left() {
    let (_, torque) = decide_controls(&keys(false, false, true, true));
    assert_eq!(torque.y, -630_000);
    let (_, torque) = decide_controls(&keys(false, false, true, false));
    assert_eq!(torque.y, 630_000);
    let (_, torque) = decide_controls(&keys(false, false, false, true));
    assert_eq!(torque.y, -630_000);
    let (_, torque) = decide_controls(&keys(false, false, false, false));
    assert_eq!(torque.y, 0);
}

#[test]
fn collider_insert_rejects_missing_parent() {
    let (mut bodies, mut colliders, _physics) = insert_resources();
    let mut pending = PendingEntities::new();
    // A valid spawn first, so the containers are non-empty.
    create_floor(
        &mut pending,
        MilliVec3::new(0, 0, 0),
        &mut bodies,
        &mut colliders,
    );
    assert_eq!(bodies.len(), 1);
    assert_eq!(colliders.len(), 1);
    let ball = rapier3d::geometry::ColliderBuilder::ball(0.5).build();
    let err = colliders
        .insert_collider(ball, 7, &mut bodies)
        .expect_err("parent 7 does not exist");
    assert_eq!(err, PhysicsError::InvalidParent);
    assert_eq!(colliders.len(), 1);
}

#[test]
fn get_reports_dangling_handles() {
    let (mut bodies, mut colliders, _physics) = insert_resources();
    let mut pending = PendingEntities::new();
    create_player(
        &mut pending,
        MilliVec3::new(0, 5_000, 0),
        &mut bodies,
        &mut colliders,
    );
    assert!(bodies.get(0).is_ok());
    assert_eq!(bodies.get(1).unwrap_err(), PhysicsError::DanglingHandle);
    assert!(colliders.get(0).is_ok());
    assert_eq!(colliders.get(3).unwrap_err(), PhysicsError::DanglingHandle);
}

#[test]
fn ramp_spawn_succeeds_on_documented_profile() {
    let (mut bodies, mut colliders, _physics) = insert_resources();
    let mut pending = PendingEntities::new();
    create_ramp(
        &mut pending,
        MilliVec3::new(0, 0, 0),
        MilliVec3::new(0, 0, 0),
        &mut bodies,
        &mut colliders,
    )
    .expect("the documented 6-point profile admits a hull");
    let mut store = EntityStore::new();
    pending.commit(&mut store);
    assert_eq!(store.len(), 1);
    assert_eq!(store.name(0).unwrap().name, ['r', 'a', 'm', 'p', '0']);
}

#[test]
fn ramp_hull_bounding_volume_contains_profile_points() {
    let (mut bodies, mut colliders, _physics) = insert_resources();
    let mut pending = PendingEntities::new();
    create_ramp(
        &mut pending,
        MilliVec3::new(0, 0, 0),
        MilliVec3::new(0, 0, 0),
        &mut bodies,
        &mut colliders,
    )
    .expect("hull");
    let raw = colliders.raw_handle(0);
    let handle = rapier3d::geometry::ColliderHandle::from_raw_parts(raw.0, raw.1);
    let collider = colliders.rapier().get(handle).expect("collider");
    let aabb = collider.compute_aabb();
    for p in ramp_profile_points() {
        let x = p.x as f32 / 1000.0;
        let y = p.y as f32 / 1000.0;
        let z = p.z as f32 / 1000.0;
        let eps = 1.0e-3;
        assert!(aabb.mins.x - eps <= x && x <= aabb.maxs.x + eps);
        assert!(aabb.mins.y - eps <= y && y <= aabb.maxs.y + eps);
        assert!(aabb.mins.z - eps <= z && z <= aabb.maxs.z + eps);
    }
}

#[test]
fn runtime_terrain_spawn_adds_one_static_entity() {
    let mut game = GameContainer::create(&Vec::new()).expect("world creation");
    let grid = vec![vec![0i64; 5]; 5];
    game.create_map(&grid);
    let store = game.store();
    assert_eq!(store.len(), 3);
    assert_eq!(store.name(2).unwrap().name, ['m', 'a', 'p', '0', '0']);
    let link = store.link(2).as_ref().unwrap();
    assert!(matches!(link.object_type, PhysicsType::Static));
    assert_eq!(link.colliders.len(), 1);
    assert!(store.player(2).is_none());
}

#[test]
fn runtime_terrain_spans_configured_scale() {
    let mut game = GameContainer::create(&Vec::new()).expect("world creation");
    let grid = vec![vec![0i64; 5]; 5];
    game.create_map(&grid);
    let link = game.store().link(2).as_ref().unwrap().clone();
    let raw = game.colliders().raw_handle(link.colliders[0]);
    let handle = rapier3d::geometry::ColliderHandle::from_raw_parts(raw.0, raw.1);
    let collider = game.colliders().rapier().get(handle).expect("collider");
    let aabb = collider.compute_aabb();
    let eps = 1.0e-2;
    assert!((aabb.maxs.x - aabb.mins.x - 1000.0).abs() < eps);
    assert!((aabb.maxs.z - aabb.mins.z - 1000.0).abs() < eps);
    // All-zero samples: the 100-unit vertical scale leaves a flat surface.
    assert!((aabb.maxs.y - aabb.mins.y).abs() < eps);
}

#[test]
fn ramp_profile_matches_documented_wedge() {
    let points = ramp_profile_points();
    assert_eq!(points.len(), 6);
    let expected: [(i64, i64, i64); 6] = [
        (5000, 0, 6000),
        (-5000, 0, 6000),
        (5000, 0, -6000),
        (-5000, 0, -6000),
        (5000, 5000, 6000),
        (-5000, 5000, 6000),
    ];
    for (p, (x, y, z)) in points.iter().zip(expected.iter()) {
        assert_eq!((p.x, p.y, p.z), (*x, *y, *z));
    }
}

#[test]
fn player_spawns_at_rest_at_start_position() {
    let game = GameContainer::create(&Vec::new()).expect("world creation");
    let link = game.store().link(1).as_ref().unwrap().clone();
    let raw = game.bodies().raw_handle(link.rigidbody);
    let handle = rapier3d::dynamics::RigidBodyHandle::from_raw_parts(raw.0, raw.1);
    let body = game.bodies().rapier().get(handle).expect("body");
    let v = body.linvel();
    assert_eq!((v.x, v.y, v.z), (0.0, 0.0, 0.0));
    let t = body.position().translation;
    assert_eq!((t.x, t.y, t.z), (0.0, 5.0, 0.0));
}

#[test]
fn colliders_are_parented_to_their_entity_bodies() {
    let game = GameContainer::create(&Vec::new()).expect("world creation");
    for e in 0..2 {
        let link = game.store().link(e).as_ref().unwrap().clone();
        let body_raw = game.bodies().raw_handle(link.rigidbody);
        let collider_raw = game.colliders().raw_handle(link.colliders[0]);
        let collider_handle =
            rapier3d::geometry::ColliderHandle::from_raw_parts(collider_raw.0, collider_raw.1);
        let collider = game.colliders().rapier().get(collider_handle).expect("collider");
        let parent = collider.parent().expect("attached").into_raw_parts();
        assert_eq!(parent, body_raw);
    }
}
