//! End-to-end simulation scenarios: the vehicle dropped onto the floor or
//! the terrain, settling, grounding, throttle response, traction decay, and
//! the immobility of static course geometry.

use car_sim::GameContainer;
use car_sim::GameKeys;
use car_sim::GameKeysContainer;
use car_sim::components::MilliVec3;
use car_sim::entities::create_floor;
use car_sim::entities::create_player;
use car_sim::resources::ColliderContainer;
use car_sim::resources::PhysicsResource;
use car_sim::resources::RigidBodyContainer;
use car_sim::resources::insert_resources;
use car_sim::store::EntityStore;
use car_sim::store::PendingEntities;
use car_sim::systems::movement::MovementSystem;
use car_sim::systems::run_systems;

struct FloorWorld {
    store: EntityStore,
    pending: PendingEntities,
    physics: PhysicsResource,
    bodies: RigidBodyContainer,
    colliders: ColliderContainer,
}

/// Floor at the origin, player five units up — the classic drop scenario.
fn floor_world() -> FloorWorld {
    let (mut bodies, mut colliders, physics) = insert_resources();
    let mut store = EntityStore::new();
    let mut pending = PendingEntities::new();
    create_floor(
        &mut pending,
        MilliVec3::new(0, 0, 0),
        &mut bodies,
        &mut colliders,
    );
    create_player(
        &mut pending,
        MilliVec3::new(0, 5_000, 0),
        &mut bodies,
        &mut colliders,
    );
    pending.commit(&mut store);
    FloorWorld {
        store,
        pending,
        physics,
        bodies,
        colliders,
    }
}

fn no_keys() -> GameKeysContainer {
    GameKeysContainer::new()
}

fn tick(w: &mut FloorWorld, keys: &GameKeysContainer) {
    run_systems(
        &mut w.store,
        &mut w.pending,
        &mut w.physics,
        &mut w.bodies,
        &mut w.colliders,
        keys,
    );
}

fn player_grounded(w: &FloorWorld) -> bool {
    w.store.player(1).unwrap().touching_ground
}

fn body_position(w: &FloorWorld, entity: usize) -> (f32, f32, f32) {
    let link = w.store.link(entity).as_ref().unwrap().clone();
    let bits = w.bodies.read_pose_bits(link.rigidbody);
    (
        f32::from_bits(bits[0]),
        f32::from_bits(bits[1]),
        f32::from_bits(bits[2]),
    )
}

fn player_body<'a>(w: &'a FloorWorld) -> &'a rapier3d::dynamics::RigidBody {
    let link = w.store.link(1).as_ref().unwrap().clone();
    let raw = w.bodies.raw_handle(link.rigidbody);
    let handle = rapier3d::dynamics::RigidBodyHandle::from_raw_parts(raw.0, raw.1);
    w.bodies.rapier().get(handle).unwrap()
}

fn settle(w: &mut FloorWorld, max_ticks: usize) -> usize {
    let keys = no_keys();
    for t in 0..max_ticks {
        tick(w, &keys);
        if player_grounded(w) {
            return t + 1;
        }
    }
    panic!("player never touched the ground within {max_ticks} ticks");
}

#[test]
fn player_settles_onto_floor() {
    let mut w = floor_world();
    let ticks = settle(&mut w, 1_000);
    assert!(ticks <= 1_000);
    let keys = no_keys();
    for _ in 0..200 {
        tick(&mut w, &keys);
    }
    let (x, y, z) = body_position(&w, 1);
    // Above the floor's top surface, below the drop height.
    assert!(y > 0.1, "resting height {y} not above the floor top");
    assert!(y < 5.0, "resting height {y} not below the drop height");
    // No force was ever applied: the horizontal position is unchanged up
    // to solver jitter from the bounces (a few millimetres over a 5-unit
    // drop).
    assert!(x.abs() < 0.05, "horizontal drift in x: {x}");
    assert!(z.abs() < 0.05, "horizontal drift in z: {z}");
}

#[test]
fn player_settles_onto_default_terrain() {
    let mut game = GameContainer::create(&Vec::new()).expect("world creation");
    let keys = no_keys();
    let mut grounded_at = None;
    for t in 0..1_000 {
        game.run_systems(&keys);
        if game.store().player(1).unwrap().touching_ground {
            grounded_at = Some(t + 1);
            break;
        }
    }
    assert!(
        grounded_at.is_some(),
        "player never grounded on the default terrain"
    );
}

#[test]
fn airborne_inputs_have_no_effect() {
    let mut w = floor_world();
    // A few ticks of free fall; the player is still airborne.
    let keys = no_keys();
    for _ in 0..5 {
        tick(&mut w, &keys);
    }
    assert!(!player_grounded(&w));
    let before = player_body(&w).linvel();
    let mut all_pressed = GameKeysContainer::new();
    for idx in 0..4 {
        all_pressed.set(idx, true);
    }
    // The Control System alone, with every flag pressed: airborne means no
    // steering or throttle authority, so the physics state is untouched.
    let mut control = MovementSystem {};
    control.run(&w.store, &mut w.bodies, &all_pressed);
    let after = player_body(&w).linvel();
    assert_eq!(before, after);
}

#[test]
fn accelerate_increases_forward_velocity() {
    let mut w = floor_world();
    settle(&mut w, 1_000);
    let keys = no_keys();
    for _ in 0..300 {
        tick(&mut w, &keys);
    }
    assert!(player_grounded(&w));
    let forward = *player_body(&w).rotation() * rapier3d::math::Vector::X;
    let before = player_body(&w).linvel().dot(forward);
    let mut accelerate = GameKeysContainer::new();
    accelerate.set(GameKeys::Acceleration.index(), true);
    tick(&mut w, &accelerate);
    let after = player_body(&w).linvel().dot(forward);
    assert!(
        after > before,
        "forward velocity did not increase: {before} -> {after}"
    );
}

#[test]
fn traction_decay_never_increases_speed() {
    let mut w = floor_world();
    settle(&mut w, 1_000);
    let mut accelerate = GameKeysContainer::new();
    accelerate.set(GameKeys::Acceleration.index(), true);
    // Build up some speed while grounded.
    for _ in 0..120 {
        tick(&mut w, &accelerate);
    }
    // Release every key and coast: with no input, horizontal speed decays
    // monotonically toward rest — traction never speeds the vehicle up.
    let keys = no_keys();
    let mut previous = {
        let v = player_body(&w).linvel();
        (v.x * v.x + v.z * v.z).sqrt()
    };
    for _ in 0..150 {
        tick(&mut w, &keys);
        let v = player_body(&w).linvel();
        let speed = (v.x * v.x + v.z * v.z).sqrt();
        assert!(
            speed <= previous + 1.0e-4,
            "horizontal speed increased while coasting: {previous} -> {speed}"
        );
        previous = speed;
    }
    assert!(previous < 0.5, "vehicle did not coast toward rest: {previous}");
}

#[test]
fn static_floor_never_moves() {
    let mut w = floor_world();
    let link = w.store.link(0).as_ref().unwrap().clone();
    let initial = w.bodies.read_pose_bits(link.rigidbody);
    // Drive hard for a while: contacts, impulses, torque — the floor, being
    // static, keeps its exact pose through all of it.
    let mut keys = GameKeysContainer::new();
    keys.set(GameKeys::Acceleration.index(), true);
    keys.set(GameKeys::Left.index(), true);
    for _ in 0..240 {
        tick(&mut w, &keys);
        let pose = w.bodies.read_pose_bits(link.rigidbody);
        assert_eq!(initial, pose);
    }
}

#[test]
fn deferred_spawn_joins_only_after_commit() {
    let mut w = floor_world();
    assert_eq!(w.store.len(), 2);
    // Record a ramp mid-session: it is staged, not yet an entity.
    car_sim::entities::create_ramp(
        &mut w.pending,
        MilliVec3::new(20_000, 0, 0),
        MilliVec3::new(0, 0, 0),
        &mut w.bodies,
        &mut w.colliders,
    )
    .expect("hull");
    assert_eq!(w.store.len(), 2);
    assert_eq!(w.pending.len(), 1);
    // The next tick commits it, with the recorded components.
    let keys = no_keys();
    tick(&mut w, &keys);
    assert_eq!(w.store.len(), 3);
    assert_eq!(w.pending.len(), 0);
    assert_eq!(w.store.name(2).unwrap().name, ['r', 'a', 'm', 'p', '0']);
    assert!(w.store.player(2).is_none());
}

#[test]
fn snapshots_report_every_named_linked_entity() {
    let mut game = GameContainer::create(&Vec::new()).expect("world creation");
    let keys = no_keys();
    for _ in 0..10 {
        game.run_systems(&keys);
    }
    let snapshots = game.log_entities();
    assert_eq!(snapshots.len(), 2);
    let terrain = snapshots.get(0);
    let player = snapshots.get(1);
    assert_eq!(terrain.name(), "map00");
    assert_eq!(terrain.id(), 0);
    assert_eq!(player.name(), "car00");
    assert_eq!(player.id(), 1);
    // The player has been falling: its reported height is below the start.
    let (_, y_bits, _) = (player.pos().0, player.pos().1, player.pos().2);
    let y = f32::from_bits(y_bits);
    assert!(y < 5.0 && y > -10.0);
}
