use crate::config::Config;
use crate::entity::{Coords, Entity, Ship, GAUGE_FULL};
use crate::errors::GameError;
use crate::input::InputCommand;
use crate::world::{world_exited, world_updated, GameState, WorldView};
use vstd::prelude::*;

verus! {

/// The loop controller's life: not yet started, running the tick loop, or
/// exited for good.  `Exited` is terminal.
#[derive(Clone, Copy, PartialEq, Eq, Debug)]
pub enum Phase {
    NotStarted,
    Running,
    Exited,
}

/// What the loop around the controller must do next: keep ticking, or tear
/// the display down and stop.
#[derive(Clone, Copy, PartialEq, Eq, Debug)]
pub enum Directive {
    Continue,
    Shutdown,
}

/// The vessel the world is seeded with when the game starts: at the
/// origin, every gauge full.
pub open spec fn starting_vessel() -> Entity {
    Entity::Vessel(
        Ship {
            location: Coords { x: 0, y: 0 },
            oxygen: GAUGE_FULL,
            fuel: GAUGE_FULL,
            food: GAUGE_FULL,
        },
    )
}

/// The loop controller: it owns the world and the configuration and walks
/// the `NotStarted -> Running -> Exited` state machine.  The display and
/// the input source are collaborators outside the library; the surrounding
/// loop performs their I/O and hands the controller plain values.
pub struct Game {
    pub state: GameState,
    pub config: Config,
    pub phase: Phase,
}

impl Game {
    /// Which phase the controller is in.
    pub open spec fn phase(&self) -> Phase {
        self.phase
    }

    /// The controller invariant: a valid configuration whose capacity
    /// bounds are the ones the world enforces.
    pub open spec fn wf(&self) -> bool {
        &&& self.state.wf()
        &&& self.config.wf()
        &&& self.state@.entity_cap == self.config.max_entities
        &&& self.state@.action_cap == self.config.max_actions
    }

    /// A controller over a fresh world, not yet started.
    pub fn new(config: Config) -> (g: Game)
        requires
            config.wf(),
        ensures
            g.wf(),
            g.phase() == Phase::NotStarted,
            g.config == config,
            g.state@.entities == Seq::<Entity>::empty(),
            g.state@.actions.len() == 0,
            g.state@.sim_time_ms == 0,
    {
        let state = GameState::new(&config);
        Game { state, config, phase: Phase::NotStarted }
    }

    /// The exec view of the phase, for the surrounding loop.
    pub fn current_phase(&self) -> (p: Phase)
        ensures
            p == self.phase(),
    {
        self.phase
    }

    /// The simulation half of starting the game: seed the world with the
    /// starting vessel, run every entity's `start` hook once, and enter
    /// `Running`.  Fails — leaving the controller in `NotStarted` and the
    /// world untouched — exactly when the world has no room for the vessel.
    /// The caller starts the display collaborator as well and must enter
    /// the tick loop only if both succeed.
    pub fn start(&mut self) -> (r: Result<(), GameError>)
        requires
            old(self).wf(),
            old(self).phase() == Phase::NotStarted,
        ensures
            final(self).wf(),
            final(self).config == old(self).config,
            old(self).state@.entities.len() < old(self).state@.entity_cap ==> (
            r is Ok
                && final(self).phase() == Phase::Running
                && final(self).state@ == (WorldView {
                    entities: old(self).state@.entities.push(starting_vessel()),
                    ..old(self).state@
                })
            ),
            old(self).state@.entities.len() >= old(self).state@.entity_cap ==> (
            r == Err::<(), GameError>(GameError::CapacityExceeded)
                && final(self).phase() == Phase::NotStarted
                && final(self).state@ == old(self).state@
            ),
    {
        let vessel = Ship::new(Coords::new(0, 0));
        match self.state.add_entity(Entity::Vessel(vessel)) {
            Ok(()) => {
                self.state.start();
                self.phase = Phase::Running;
                Ok(())
            },
            Err(e) => Err(e),
        }
    }

    /// One atomic world tick while running: no observer sees a world with
    /// only part of a tick applied.
    pub fn update(&mut self, dt: u32)
        requires
            old(self).wf(),
            old(self).phase() == Phase::Running,
        ensures
            final(self).wf(),
            final(self).config == old(self).config,
            final(self).phase() == Phase::Running,
            final(self).state@ == world_updated(old(self).state@, dt),
    {
        self.state.update(dt);
    }

    /// Consumes the command the input adapter produced for this tick.  A
    /// `Quit` during `Running` releases the world's resources — once — and
    /// moves to the terminal `Exited` phase; the caller then tears the
    /// display down, after the world, and stops.  Anything else changes
    /// nothing and the loop goes on.  Once `Exited`, neither `update` nor
    /// `on_command` can be called again, so no further world update follows
    /// the quit.
    pub fn on_command(&mut self, cmd: InputCommand) -> (d: Directive)
        requires
            old(self).wf(),
            old(self).phase() == Phase::Running,
        ensures
            final(self).wf(),
            final(self).config == old(self).config,
            cmd == InputCommand::Quit ==> (
            d == Directive::Shutdown
                && final(self).phase() == Phase::Exited
                && final(self).state@ == world_exited(old(self).state@)
            ),
            cmd == InputCommand::Unrecognized ==> (
            d == Directive::Continue
                && *final(self) == *old(self)
            ),
    {
        match cmd {
            InputCommand::Quit => {
                self.exit();
                Directive::Shutdown
            },
            InputCommand::Unrecognized => Directive::Continue,
        }
    }

    /// Releases the world's resources and enters the terminal `Exited`
    /// phase, from any phase.  Idempotent: a second call leaves everything
    /// as the first did.  The caller tears the display down after this, so
    /// the display goes last and may show a final state.
    pub fn exit(&mut self)
        ensures
            final(self).state.wf(),
            old(self).wf() ==> final(self).wf(),
            final(self).config == old(self).config,
            final(self).phase() == Phase::Exited,
            final(self).state@ == world_exited(old(self).state@),
    {
        self.state.exit();
        self.phase = Phase::Exited;
    }

    /// Restoring a persisted world is a collaborator outside the core and
    /// is stubbed as a no-op here.
    pub fn load(&mut self, _path: &str)
        ensures
            *final(self) == *old(self),
    {
    }

    /// Persisting the world is a collaborator outside the core and is
    /// stubbed as a no-op here.
    pub fn save(&self, _path: &str) {
    }
}

} // verus!
