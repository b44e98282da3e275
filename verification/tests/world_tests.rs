use survival_core::config::Config;
use survival_core::entity::{Coords, Entity, Ship, GAUGE_FULL};
use survival_core::errors::GameError;
use survival_core::world::GameState;

fn config(max_entities: u32, max_actions: u32) -> Config {
    Config::new(100, max_entities, max_actions).unwrap()
}

fn gauges(state: &GameState) -> Vec<(i64, i64, i64)> {
    let mut out = Vec::new();
    for i in 0..state.entity_count() {
        let Entity::Vessel(s) = state.entity_at(i);
        out.push((s.oxygen, s.fuel, s.food));
    }
    out
}

/// A vessel starting at oxygen 100.0 updated with dt = 1.0 s ten times ends
/// at exactly 99.0; fuel at 98.0; food at 97.0 (fixed-point arithmetic is
/// exact, no tolerance needed).
#[test]
fn depletion_after_ten_seconds() {
    let mut ship = Ship::new(Coords::new(0, 0));
    assert_eq!(ship.oxygen, GAUGE_FULL);
    for _ in 0..10 {
        ship.update(1000);
    }
    assert_eq!(ship.oxygen, 99_000_000);
    assert_eq!(ship.fuel, 98_000_000);
    assert_eq!(ship.food, 97_000_000);
    assert_eq!(ship.location(), Coords::new(0, 0));
}

/// Distinct per-gauge rates: one 500 ms tick depletes oxygen by 0.05, fuel
/// by 0.1, food by 0.15.
#[test]
fn depletion_single_tick_exact() {
    let mut ship = Ship::new(Coords::new(3, -4));
    ship.update(500);
    assert_eq!(ship.oxygen, GAUGE_FULL - 50_000);
    assert_eq!(ship.fuel, GAUGE_FULL - 100_000);
    assert_eq!(ship.food, GAUGE_FULL - 150_000);
}

/// Gauges are not clamped at zero: they keep falling and go negative.
#[test]
fn depletion_goes_negative() {
    let mut ship = Ship::new(Coords::new(0, 0));
    // 0.3 food per second runs out after 333.3 s; a little later it is negative.
    for _ in 0..400 {
        ship.update(1000);
    }
    assert_eq!(ship.food, 100_000_000 - 400 * 300_000);
    assert!(ship.food < 0);
    assert!(ship.oxygen > 0);
}

/// Order determinism: the same insertion order and the same dt sequence
/// give the identical final gauge state on repeated runs.
#[test]
fn update_is_deterministic() {
    let dts: [u32; 7] = [100, 250, 100, 999, 1, 100, 42];
    let run = || {
        let cfg = config(8, 8);
        let mut w = GameState::new(&cfg);
        w.add_entity(Entity::Vessel(Ship::new(Coords::new(1, 1)))).unwrap();
        w.add_entity(Entity::Vessel(Ship::new(Coords::new(2, 2)))).unwrap();
        w.add_entity(Entity::Vessel(Ship::new(Coords::new(3, 3)))).unwrap();
        w.start();
        for dt in dts {
            w.update(dt);
        }
        gauges(&w)
    };
    let first = run();
    let second = run();
    assert_eq!(first, second);
    assert_eq!(first.len(), 3);
}

/// Capacity enforcement: the (max_entities + 1)-th insertion fails with
/// CapacityExceeded and the world still holds exactly max_entities.
#[test]
fn entity_capacity_enforced() {
    let cfg = config(3, 4);
    let mut w = GameState::new(&cfg);
    for i in 0..3 {
        assert_eq!(w.add_entity(Entity::Vessel(Ship::new(Coords::new(i, 0)))), Ok(()));
    }
    assert_eq!(
        w.add_entity(Entity::Vessel(Ship::new(Coords::new(9, 9)))),
        Err(GameError::CapacityExceeded)
    );
    assert_eq!(w.entity_count(), 3);
}

/// The world clock advances by each dt and saturates instead of wrapping.
#[test]
fn sim_time_advances() {
    let cfg = config(1, 1);
    let mut w = GameState::new(&cfg);
    assert_eq!(w.sim_time(), 0);
    w.update(250);
    w.update(750);
    assert_eq!(w.sim_time(), 1000);
}

/// exit releases every entity and action and is idempotent.
#[test]
fn exit_is_idempotent() {
    let cfg = config(4, 4);
    let mut w = GameState::new(&cfg);
    w.add_entity(Entity::Vessel(Ship::new(Coords::new(0, 0)))).unwrap();
    w.exit();
    assert_eq!(w.entity_count(), 0);
    assert_eq!(w.action_count(), 0);
    let t = w.sim_time();
    w.exit();
    assert_eq!(w.entity_count(), 0);
    assert_eq!(w.action_count(), 0);
    assert_eq!(w.sim_time(), t);
}
