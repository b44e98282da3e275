use crate::actions::{
    due_prefix_len, requeued, sorted_by_trigger, spec_sat_add_u64, ActionQueue, ScheduledAction,
};
use crate::config::Config;
use crate::entity::{entity_updated, Entity};
use crate::errors::GameError;
use vstd::prelude::*;

verus! {

/// The abstract state of a world: the entities in insertion order, the
/// scheduled actions in trigger order, the simulation clock, and the
/// configured capacity bounds.
#[verifier::ext_equal]
pub ghost struct WorldView {
    pub entities: Seq<Entity>,
    pub actions: Seq<ScheduledAction>,
    pub sim_time_ms: u64,
    pub entity_cap: u32,
    pub action_cap: u32,
}

/// The world invariant: both collections within their bounds, actions
/// sorted by trigger time.
pub open spec fn world_wf(w: WorldView) -> bool {
    &&& w.entities.len() <= w.entity_cap
    &&& sorted_by_trigger(w.actions)
    &&& w.actions.len() <= w.action_cap
}

/// A world after one tick of `dt` milliseconds: the clock advances
/// (saturating), every entity is updated once, in insertion order, and
/// every action due at the new time is drained and applied exactly once.
pub open spec fn world_updated(w: WorldView, dt: u32) -> WorldView {
    let new_time = spec_sat_add_u64(w.sim_time_ms, dt as u64);
    let k = due_prefix_len(w.actions, new_time);
    WorldView {
        entities: w.entities.map_values(|e: Entity| entity_updated(e, dt)),
        actions: requeued(w.actions.skip(k), w.actions.take(k)),
        sim_time_ms: new_time,
        ..w
    }
}

/// A world whose resources have been released: no entities, no actions.
pub open spec fn world_exited(w: WorldView) -> WorldView {
    WorldView { entities: Seq::<Entity>::empty(), actions: Seq::<ScheduledAction>::empty(), ..w }
}

/// A world after a whole sequence of ticks, first tick first.
pub open spec fn world_after(w: WorldView, dts: Seq<u32>) -> WorldView
    decreases dts.len(),
{
    if dts.len() == 0 {
        w
    } else {
        world_after(world_updated(w, dts[0]), dts.drop_first())
    }
}

/// Order determinism: a tick sequence is a function of the starting world
/// alone.  Two runs from the same entity insertion order and the same `dt`
/// sequence end in the same state — there is no nondeterministic iteration
/// order anywhere in an update.
pub proof fn lemma_update_deterministic(w1: WorldView, w2: WorldView, dts: Seq<u32>)
    requires
        w1 == w2,
    ensures
        world_after(w1, dts) == world_after(w2, dts),
{
}

/// Releasing the world's resources is idempotent: a second exit leaves the
/// state exactly as the first did.
pub proof fn lemma_exit_idempotent(w: WorldView)
    ensures
        world_exited(world_exited(w)) == world_exited(w),
{
}

/// The authoritative, exclusively owned simulation state: the entity
/// collection (insertion-ordered — that order is the update order) and the
/// action queue, plus the simulation clock.
pub struct GameState {
    entities: Vec<Entity>,
    actions: ActionQueue,
    sim_time_ms: u64,
    max_entities: u32,
}

impl View for GameState {
    type V = WorldView;

    closed spec fn view(&self) -> WorldView {
        WorldView {
            entities: self.entities@,
            actions: self.actions@,
            sim_time_ms: self.sim_time_ms,
            entity_cap: self.max_entities,
            action_cap: self.actions.capacity(),
        }
    }
}

impl GameState {
    pub open spec fn wf(&self) -> bool {
        world_wf(self@)
    }

    /// An empty world bounded by the configured capacities, with the
    /// simulation clock at zero.
    pub fn new(config: &Config) -> (s: GameState)
        ensures
            s.wf(),
            s@ == (WorldView {
                entities: Seq::<Entity>::empty(),
                actions: Seq::<ScheduledAction>::empty(),
                sim_time_ms: 0,
                entity_cap: config.max_entities,
                action_cap: config.max_actions,
            }),
    {
        GameState {
            entities: Vec::new(),
            actions: ActionQueue::new(config.max_actions),
            sim_time_ms: 0,
            max_entities: config.max_entities,
        }
    }

    /// Appends an entity, preserving insertion order.  Succeeds exactly
    /// when the world is below `max_entities`; otherwise it reports
    /// `CapacityExceeded` and the world is unchanged.
    pub fn add_entity(&mut self, e: Entity) -> (r: Result<(), GameError>)
        requires
            old(self).wf(),
        ensures
            final(self).wf(),
            old(self)@.entities.len() < old(self)@.entity_cap ==> r is Ok && final(self)@
                == (WorldView { entities: old(self)@.entities.push(e), ..old(self)@ }),
            old(self)@.entities.len() >= old(self)@.entity_cap ==> r == Err::<(), GameError>(
                GameError::CapacityExceeded,
            ) && final(self)@ == old(self)@,
    {
        if self.entities.len() < self.max_entities as usize {
            self.entities.push(e);
            proof {
                assert(self@ =~= (WorldView {
                    entities: old(self)@.entities.push(e),
                    ..old(self)@
                }));
            }
            Ok(())
        } else {
            Err(GameError::CapacityExceeded)
        }
    }

    /// Schedules an action, preserving trigger order with FIFO stability.
    /// Succeeds exactly when the queue is below `max_actions`; otherwise it
    /// reports `CapacityExceeded` and the world is unchanged.
    pub fn add_action(&mut self, a: ScheduledAction) -> (r: Result<(), GameError>)
        requires
            old(self).wf(),
        ensures
            final(self).wf(),
            old(self)@.actions.len() < old(self)@.action_cap ==> r is Ok && final(self)@
                == (WorldView {
                actions: old(self)@.actions.insert(
                    due_prefix_len(old(self)@.actions, a.trigger_time),
                    a,
                ),
                ..old(self)@
            }),
            old(self)@.actions.len() >= old(self)@.action_cap ==> r == Err::<(), GameError>(
                GameError::CapacityExceeded,
            ) && final(self)@ == old(self)@,
    {
        let r = self.actions.schedule(a);
        proof {
            if old(self)@.actions.len() < old(self)@.action_cap {
                assert(self@ =~= (WorldView {
                    actions: old(self)@.actions.insert(
                        due_prefix_len(old(self)@.actions, a.trigger_time),
                        a,
                    ),
                    ..old(self)@
                }));
            } else {
                assert(self@ =~= old(self)@);
            }
        }
        r
    }

    /// Runs every entity's `start` hook, in insertion order, exactly once.
    /// Starting is an idempotent initialization: it leaves the state as it
    /// stands.
    #[verifier::loop_isolation(false)]
    pub fn start(&mut self)
        requires
            old(self).wf(),
        ensures
            final(self).wf(),
            final(self)@ == old(self)@,
    {
        let ghost es0 = self.entities@;
        let mut started: Vec<Entity> = Vec::new();
        let mut i: usize = 0;
        while i < self.entities.len()
            invariant
                i <= es0.len(),
                self.entities@ == es0,
                started@.len() == i,
                forall|k: int| 0 <= k < i ==> started@[k] == es0[k],
            decreases es0.len() - i,
        {
            let mut e = self.entities[i];
            e.start();
            started.push(e);
            i += 1;
        }
        self.entities = started;
        proof {
            assert(self.entities@ =~= es0);
            assert(self@ =~= old(self)@);
        }
    }

    /// One atomic tick: advance the clock by `dt` (saturating), update
    /// every entity once, in insertion order, then drain and apply the due
    /// actions.  The whole effect is `world_updated`, a function of the old
    /// state and `dt` alone, so replays are deterministic.
    #[verifier::loop_isolation(false)]
    pub fn update(&mut self, dt: u32)
        requires
            old(self).wf(),
        ensures
            final(self).wf(),
            final(self)@ == world_updated(old(self)@, dt),
    {
        let new_time = self.sim_time_ms.saturating_add(dt as u64);
        self.sim_time_ms = new_time;
        let ghost es0 = self.entities@;
        let mut updated: Vec<Entity> = Vec::new();
        let mut i: usize = 0;
        while i < self.entities.len()
            invariant
                i <= es0.len(),
                self.entities@ == es0,
                updated@.len() == i,
                forall|k: int| 0 <= k < i ==> updated@[k] == entity_updated(es0[k], dt),
            decreases es0.len() - i,
        {
            let mut e = self.entities[i];
            e.update(dt);
            updated.push(e);
            i += 1;
        }
        self.entities = updated;
        let _due = self.actions.drain_due(new_time);
        proof {
            assert(self.entities@ =~= es0.map_values(|e: Entity| entity_updated(e, dt)));
            assert(self@ =~= world_updated(old(self)@, dt));
        }
    }

    /// Releases the world's resources: every entity and every action is
    /// removed.  Idempotent — a second call changes nothing further.
    pub fn exit(&mut self)
        ensures
            final(self).wf(),
            final(self)@ == world_exited(old(self)@),
    {
        self.entities.clear();
        self.actions.clear();
        proof {
            assert(self@ =~= world_exited(old(self)@));
        }
    }

    /// How many entities the world owns.
    pub fn entity_count(&self) -> (n: usize)
        ensures
            n == self@.entities.len(),
    {
        self.entities.len()
    }

    /// A read-only view of the entity at `i`, in insertion order.
    pub fn entity_at(&self, i: usize) -> (e: &Entity)
        requires
            i < self@.entities.len(),
        ensures
            *e == self@.entities[i as int],
    {
        &self.entities[i]
    }

    /// How many actions are scheduled.
    pub fn action_count(&self) -> (n: usize)
        ensures
            n == self@.actions.len(),
    {
        self.actions.len()
    }

    /// A read-only view of the scheduled action at `i`, in trigger order.
    pub fn action_at(&self, i: usize) -> (a: &ScheduledAction)
        requires
            i < self@.actions.len(),
        ensures
            *a == self@.actions[i as int],
    {
        self.actions.get(i)
    }

    /// The simulation clock, in milliseconds.
    pub fn sim_time(&self) -> (t: u64)
        ensures
            t == self@.sim_time_ms,
    {
        self.sim_time_ms
    }

    /// The configured entity capacity.
    pub fn max_entities(&self) -> (n: u32)
        ensures
            n == self@.entity_cap,
    {
        self.max_entities
    }

    /// The configured action capacity.
    pub fn max_actions(&self) -> (n: u32)
        ensures
            n == self@.action_cap,
    {
        self.actions.max_actions()
    }
}

} // verus!
