use vstd::prelude::*;

verus! {

/// One whole gauge unit, in the fixed-point representation used by every
/// gauge: a gauge value of `1_000_000` stands for `1.0`.
pub const GAUGE_SCALE: i64 = 1_000_000;

/// Every gauge of a freshly spawned vessel starts at `100.0` gauge units.
pub const GAUGE_FULL: i64 = 100_000_000;

/// Oxygen depletes at `0.1` gauge units per second, that is 100 millionths
/// per millisecond.
pub const OXYGEN_RATE_PER_MS: i64 = 100;

/// Fuel depletes at `0.2` gauge units per second.
pub const FUEL_RATE_PER_MS: i64 = 200;

/// Food depletes at `0.3` gauge units per second.  The three rates differ
/// on purpose: the gauges run out at different horizons and so act as
/// independent failure timers.
pub const FOOD_RATE_PER_MS: i64 = 300;

/// An immutable position: two scalar coordinates with value equality and no
/// further identity.
#[derive(Clone, Copy, PartialEq, Eq, Debug)]
pub struct Coords {
    pub x: i64,
    pub y: i64,
}

impl Coords {
    pub fn new(x: i64, y: i64) -> (c: Coords)
        ensures
            c == (Coords { x, y }),
    {
        Coords { x, y }
    }
}

/// A vessel: a position and three depleting resource gauges.  Gauges are
/// deliberately not clamped at zero; a negative value is left standing as a
/// raw signal for a later game-logic layer.  Only at the numeric floor of
/// the representation does a gauge saturate, which no realistic run reaches.
#[derive(Clone, Copy, PartialEq, Eq, Debug)]
pub struct Ship {
    pub location: Coords,
    pub oxygen: i64,
    pub fuel: i64,
    pub food: i64,
}

/// The value of a gauge after `dt` milliseconds of depletion at `rate`
/// millionths per millisecond, saturating at the numeric floor.
pub open spec fn gauge_after(g: i64, rate: i64, dt: u32) -> i64 {
    if g - rate * dt < i64::MIN {
        i64::MIN
    } else {
        (g - rate * dt) as i64
    }
}

/// A vessel after one update of `dt` milliseconds: each gauge depletes at
/// its own rate; the position is untouched.
pub open spec fn ship_updated(s: Ship, dt: u32) -> Ship {
    Ship {
        location: s.location,
        oxygen: gauge_after(s.oxygen, OXYGEN_RATE_PER_MS, dt),
        fuel: gauge_after(s.fuel, FUEL_RATE_PER_MS, dt),
        food: gauge_after(s.food, FOOD_RATE_PER_MS, dt),
    }
}

/// A vessel after `n` equal ticks of `dt` milliseconds each.
pub open spec fn ship_after_n(s: Ship, dt: u32, n: nat) -> Ship
    decreases n,
{
    if n == 0 {
        s
    } else {
        ship_updated(ship_after_n(s, dt, (n - 1) as nat), dt)
    }
}

/// Arithmetic facts about the total depletion `rate * dt * n`.
proof fn lemma_depletion_step(rate: int, dt: u32, n: nat)
    requires
        rate >= 0,
        n >= 1,
    ensures
        rate * dt * (n - 1) + rate * dt == rate * dt * n,
        rate * dt * (n - 1) <= rate * dt * n,
        rate * dt * n >= 0,
{
    assert(rate * dt * (n - 1) + rate * dt == rate * dt * n) by (nonlinear_arith);
    assert(rate * dt >= 0 && rate * dt * (n - 1) >= 0 && rate * dt * n >= 0) by (nonlinear_arith)
        requires
            rate >= 0,
            n >= 1,
            dt >= 0,
    {
    }
}

/// Depletion arithmetic: while no gauge reaches the numeric floor, `n`
/// ticks of `dt` milliseconds each deplete every gauge by exactly its rate
/// times `dt * n`, and the position never moves.  Ten one-second ticks take
/// a full oxygen gauge from `100.0` to exactly `99.0` gauge units.
pub proof fn lemma_depletion_linear(s: Ship, dt: u32, n: nat)
    requires
        s.oxygen - OXYGEN_RATE_PER_MS * dt * n >= i64::MIN,
        s.fuel - FUEL_RATE_PER_MS * dt * n >= i64::MIN,
        s.food - FOOD_RATE_PER_MS * dt * n >= i64::MIN,
    ensures
        ship_after_n(s, dt, n) == (Ship {
            location: s.location,
            oxygen: (s.oxygen - OXYGEN_RATE_PER_MS * dt * n) as i64,
            fuel: (s.fuel - FUEL_RATE_PER_MS * dt * n) as i64,
            food: (s.food - FOOD_RATE_PER_MS * dt * n) as i64,
        }),
    decreases n,
{
    if n == 0 {
        assert(OXYGEN_RATE_PER_MS * dt * n == 0) by (nonlinear_arith)
            requires
                n == 0,
        {
        }
        assert(FUEL_RATE_PER_MS * dt * n == 0) by (nonlinear_arith)
            requires
                n == 0,
        {
        }
        assert(FOOD_RATE_PER_MS * dt * n == 0) by (nonlinear_arith)
            requires
                n == 0,
        {
        }
    } else {
        lemma_depletion_step(OXYGEN_RATE_PER_MS as int, dt, n);
        lemma_depletion_step(FUEL_RATE_PER_MS as int, dt, n);
        lemma_depletion_step(FOOD_RATE_PER_MS as int, dt, n);
        lemma_depletion_linear(s, dt, (n - 1) as nat);
    }
}

/// Depletes one gauge by `rate * dt`, saturating at the numeric floor.
fn deplete(g: i64, rate: i64, dt: u32) -> (r: i64)
    requires
        0 <= rate <= 1000,
    ensures
        r == gauge_after(g, rate, dt),
{
    proof {
        assert(0 <= rate * (dt as int) <= 1000 * 0x1_0000_0000i64) by (nonlinear_arith)
            requires
                0 <= rate <= 1000,
                (dt as int) < 0x1_0000_0000,
        {
        }
    }
    let delta: i64 = rate * (dt as i64);
    if g >= i64::MIN + delta {
        g - delta
    } else {
        i64::MIN
    }
}

impl Ship {
    /// A fresh vessel at `location` with every gauge full.
    pub fn new(location: Coords) -> (s: Ship)
        ensures
            s == (Ship { location, oxygen: GAUGE_FULL, fuel: GAUGE_FULL, food: GAUGE_FULL }),
    {
        Ship { location, oxygen: GAUGE_FULL, fuel: GAUGE_FULL, food: GAUGE_FULL }
    }

    /// Idempotent initialization hook.  A fresh vessel already carries its
    /// fixed defaults, so starting changes nothing.
    pub fn start(&mut self)
        ensures
            *final(self) == *old(self),
    {
    }

    /// One tick of depletion: every gauge decreases by its fixed per-second
    /// rate times `dt`.  No clamping at zero is applied.
    pub fn update(&mut self, dt: u32)
        ensures
            *final(self) == ship_updated(*old(self), dt),
    {
        self.oxygen = deplete(self.oxygen, OXYGEN_RATE_PER_MS, dt);
        self.fuel = deplete(self.fuel, FUEL_RATE_PER_MS, dt);
        self.food = deplete(self.food, FOOD_RATE_PER_MS, dt);
    }

    /// A value copy of the position; callers never receive a mutable alias.
    pub fn location(&self) -> (c: Coords)
        ensures
            c == self.location,
    {
        self.location
    }
}

/// The closed vocabulary of simulation entities.  The world owns each
/// entity exclusively, in insertion order.
#[derive(Clone, Copy, PartialEq, Eq, Debug)]
pub enum Entity {
    Vessel(Ship),
}

/// An entity after one update of `dt` milliseconds.
pub open spec fn entity_updated(e: Entity, dt: u32) -> Entity {
    match e {
        Entity::Vessel(s) => Entity::Vessel(ship_updated(s, dt)),
    }
}

/// The position an entity reports.
pub open spec fn entity_location(e: Entity) -> Coords {
    match e {
        Entity::Vessel(s) => s.location,
    }
}

impl Entity {
    /// Lifecycle hook, run once before the first update.
    pub fn start(&mut self)
        ensures
            *final(self) == *old(self),
    {
        match self {
            Entity::Vessel(s) => s.start(),
        }
    }

    /// One tick of simulation for this entity.
    pub fn update(&mut self, dt: u32)
        ensures
            *final(self) == entity_updated(*old(self), dt),
    {
        match self {
            Entity::Vessel(s) => s.update(dt),
        }
    }

    /// A value copy of the entity's position.
    pub fn location(&self) -> (c: Coords)
        ensures
            c == entity_location(*self),
    {
        match self {
            Entity::Vessel(s) => s.location(),
        }
    }
}

} // verus!
