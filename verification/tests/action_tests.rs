use survival_core::actions::{ActionQueue, ScheduledAction, TimedAction};
use survival_core::config::Config;
use survival_core::entity::{Coords, Entity, Ship};
use survival_core::errors::GameError;
use survival_core::world::GameState;

fn once(id: u64, trigger_time: u64) -> ScheduledAction {
    ScheduledAction { id, trigger_time, period: None }
}

fn every(id: u64, trigger_time: u64, period: u64) -> ScheduledAction {
    ScheduledAction { id, trigger_time, period: Some(period) }
}

fn drained_ids(q: &mut ActionQueue, now: u64) -> Vec<u64> {
    q.drain_due(now).iter().map(|a| a.id).collect()
}

/// An action scheduled for t = 5.0 s is absent from drain_due(4.9 s) and
/// present exactly once in drain_due(5.0 s).
#[test]
fn drain_respects_trigger_time() {
    let mut q = ActionQueue::new(8);
    q.schedule(once(1, 5000)).unwrap();
    assert_eq!(drained_ids(&mut q, 4900), Vec::<u64>::new());
    assert_eq!(q.len(), 1);
    assert_eq!(drained_ids(&mut q, 5000), vec![1]);
    assert_eq!(q.len(), 0);
    // Consumed: it does not fire again.
    assert_eq!(drained_ids(&mut q, 6000), Vec::<u64>::new());
}

/// A recurring action with period 2.0 s first due at 2.0 s fires in
/// drain_due(2.0), drain_due(4.0), ... and not in between.
#[test]
fn recurring_action_fires_each_period() {
    let mut q = ActionQueue::new(8);
    q.schedule(every(7, 2000, 2000)).unwrap();
    assert_eq!(drained_ids(&mut q, 1000), Vec::<u64>::new());
    assert_eq!(drained_ids(&mut q, 2000), vec![7]);
    assert_eq!(drained_ids(&mut q, 3000), Vec::<u64>::new());
    assert_eq!(drained_ids(&mut q, 4000), vec![7]);
    assert_eq!(drained_ids(&mut q, 5999), Vec::<u64>::new());
    assert_eq!(drained_ids(&mut q, 6000), vec![7]);
    assert_eq!(q.len(), 1);
}

/// Within one drain no action fires twice, even when the renewed trigger
/// time has already been reached as well.
#[test]
fn recurring_action_fires_once_per_drain() {
    let mut q = ActionQueue::new(8);
    q.schedule(every(3, 1000, 1000)).unwrap();
    // At t = 5 s the action is long overdue; it still fires only once and is
    // re-scheduled at its own trigger + period, not at now + period.
    assert_eq!(drained_ids(&mut q, 5000), vec![3]);
    assert_eq!(q.get(0).trigger_time, 2000);
}

/// Draining returns actions in trigger-time order; equal trigger times keep
/// insertion order (FIFO stability).
#[test]
fn drain_order_is_trigger_then_fifo() {
    let mut q = ActionQueue::new(8);
    q.schedule(once(1, 300)).unwrap();
    q.schedule(once(2, 100)).unwrap();
    q.schedule(once(3, 300)).unwrap();
    q.schedule(once(4, 200)).unwrap();
    assert_eq!(drained_ids(&mut q, 300), vec![2, 4, 1, 3]);
}

/// Scheduling past max_actions fails with CapacityExceeded and leaves the
/// queue at exactly max_actions entries.
#[test]
fn action_capacity_enforced() {
    let mut q = ActionQueue::new(2);
    assert_eq!(q.schedule(once(1, 10)), Ok(()));
    assert_eq!(q.schedule(once(2, 20)), Ok(()));
    assert_eq!(q.schedule(once(3, 30)), Err(GameError::CapacityExceeded));
    assert_eq!(q.len(), 2);
    assert_eq!(q.max_actions(), 2);
}

/// The world drains due actions as part of its tick.
#[test]
fn world_update_drains_due_actions() {
    let cfg = Config::new(100, 2, 2).unwrap();
    let mut w = GameState::new(&cfg);
    w.add_entity(Entity::Vessel(Ship::new(Coords::new(0, 0)))).unwrap();
    w.add_action(once(11, 500)).unwrap();
    w.add_action(every(12, 600, 1000)).unwrap();
    assert_eq!(w.action_count(), 2);
    w.update(400);
    // t = 400: nothing due yet.
    assert_eq!(w.action_count(), 2);
    w.update(200);
    // t = 600: both fire; the recurring one is re-scheduled at 1600.
    assert_eq!(w.action_count(), 1);
    assert_eq!(w.action_at(0).trigger_time, 1600);
    assert_eq!(w.action_at(0).id, 12);
}

/// World-level scheduling respects max_actions just as the queue does.
#[test]
fn world_action_capacity_enforced() {
    let cfg = Config::new(100, 1, 1).unwrap();
    let mut w = GameState::new(&cfg);
    assert_eq!(w.add_action(once(1, 10)), Ok(()));
    assert_eq!(w.add_action(once(2, 20)), Err(GameError::CapacityExceeded));
    assert_eq!(w.action_count(), 1);
}

/// The timed-action capability reports when an action fires and whether it
/// recurs.
#[test]
fn timed_action_capability() {
    let a: &dyn TimedAction = &once(1, 750);
    assert_eq!(a.trigger_time(), 750);
    assert_eq!(a.period(), None);
    let b: &dyn TimedAction = &every(2, 100, 50);
    assert_eq!(b.trigger_time(), 100);
    assert_eq!(b.period(), Some(50));
}

/// A renewed trigger time saturates at the top of the time range instead of
/// wrapping around.
#[test]
fn renewal_saturates() {
    let mut q = ActionQueue::new(2);
    q.schedule(every(9, 100, u64::MAX)).unwrap();
    assert_eq!(drained_ids(&mut q, 100), vec![9]);
    assert_eq!(q.get(0).trigger_time, u64::MAX);
}
