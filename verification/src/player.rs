//! The player's craft: how the keys become torque and thrust, tick by tick.
//!
//! Torque is counted in thousandths of a unit, so that the dead zone of a
//! tenth of a unit is a whole number. Speeds and force limits are whole
//! units, blends are parts of a thousand.

use vstd::prelude::*;
use crate::utils::{next_tick, report_due, tick};

verus! {

/// Torque added or taken by one tick of turning.
pub const TURN_SPEED: i64 = 100_000;

/// Torque closer to zero than this is snapped to zero.
pub const TORQUE_DEADZONE: i64 = 100;

/// The craft's torque limit.
pub const MAX_TORQUE: i64 = 9_000_000;

/// Force gained per tick of thrust.
pub const SPEED: u64 = 27;

/// The limit on the force's magnitude without boost.
pub const MAX_SPEED: u64 = 360;

/// By how much boost raises the force limit.
pub const BOOST_FACTOR: u64 = 5;

/// The player's health at the start, which is also its maximum.
pub const PLAYER_HEALTH: u64 = 100;

/// Part of the angular velocity lost per tick while no turn is asked for.
pub const SPIN_DAMPING: u64 = 100;

/// Part of the force lost per tick without thrust.
pub const FORCE_DECAY: u64 = 100;

/// Part of the linear velocity lost per tick without thrust.
pub const COAST_DAMPING: u64 = 30;

/// The keys that the host polls each tick.
#[derive(Clone, Copy, Debug, PartialEq, Eq, Structural)]
pub struct Keys {
    pub left: bool,
    pub a: bool,
    pub right: bool,
    pub d: bool,
    pub w: bool,
    pub up: bool,
    pub shift: bool,
    pub space: bool,
}

/// What the pilot asks for in one tick.
#[derive(Clone, Copy, Debug, PartialEq, Eq, Structural)]
pub struct Controls {
    pub turn_left: bool,
    pub turn_right: bool,
    pub gas: bool,
    pub boost: bool,
    pub shoot: bool,
}

/// What becomes of the force in one tick. Whichever it is, the host then
/// sets a force shorter than a tenth of a unit to zero, cuts a longer one
/// down to `limit`, and applies it to the body.
#[derive(Clone, Copy, Debug, PartialEq, Eq, Structural)]
pub enum Thrust {
    /// The force grows by `push` along the way the craft faces.
    Burn { push: u64, limit: u64 },
    /// The force loses `decay` parts in a thousand, and after it was
    /// applied the linear velocity loses `drag` parts in a thousand.
    Coast { decay: u64, drag: u64, limit: u64 },
}

/// What the host does in one physics tick, in this order: damp the spin,
/// apply the torque, change and apply the force, shoot, report.
#[derive(Clone, Copy, Debug, PartialEq, Eq, Structural)]
pub struct Step {
    /// Parts in a thousand that the angular velocity loses, if any.
    pub spin_damping: Option<u64>,
    /// The torque to apply to the body.
    pub torque: i64,
    pub thrust: Thrust,
    /// Whether a bullet leaves the muzzle.
    pub shoot: bool,
    /// Whether the diagnostic report is due.
    pub report: bool,
}

/// The controls that a set of pressed keys stands for.
pub open spec fn controls_of(keys: Keys) -> Controls {
    Controls {
        turn_left: keys.left || keys.a,
        turn_right: keys.right || keys.d,
        gas: keys.w || keys.up,
        boost: keys.shift,
        shoot: keys.space,
    }
}

/// Torque after one tick of turning. With one direction asked for, the
/// torque moves that way by `TURN_SPEED`, and by twice as much where that
/// reverses it: right against a negative torque, left against a positive
/// one. A torque of zero has no sign to reverse, so either turn from rest
/// takes one step. With none or both asked for the torque falls to zero.
pub open spec fn turned(torque: int, turn_left: bool, turn_right: bool) -> int {
    if turn_right && !turn_left {
        if torque < 0 {
            torque + 2 * TURN_SPEED
        } else {
            torque + TURN_SPEED
        }
    } else if turn_left && !turn_right {
        if torque > 0 {
            torque - 2 * TURN_SPEED
        } else {
            torque - TURN_SPEED
        }
    } else {
        0
    }
}

/// Torque after limiting: zero inside the dead zone, else the nearest
/// value between `-max_torque` and `max_torque`.
pub open spec fn limited(torque: int, max_torque: int) -> int {
    if -TORQUE_DEADZONE < torque < TORQUE_DEADZONE {
        0
    } else if torque > max_torque {
        max_torque
    } else if torque < -max_torque {
        -max_torque
    } else {
        torque
    }
}

/// Torque after the ticks of `turns`, each a pair of the left and the
/// right turn control, every one followed by limiting.
pub open spec fn torque_after(torque: int, max_torque: int, turns: Seq<(bool, bool)>) -> int
    decreases turns.len(),
{
    if turns.len() == 0 {
        torque
    } else {
        torque_after(
            limited(turned(torque, turns[0].0, turns[0].1), max_torque),
            max_torque,
            turns.drop_first(),
        )
    }
}

/// The limit on the force's magnitude.
pub open spec fn force_limit(boost: bool, max_speed: nat) -> nat {
    if boost {
        BOOST_FACTOR as nat * max_speed
    } else {
        max_speed
    }
}

/// What becomes of the force in a tick with these controls.
pub open spec fn thrust_of(gas: bool, boost: bool, speed: u64, max_speed: u64) -> Thrust {
    if gas {
        Thrust::Burn { push: speed, limit: force_limit(boost, max_speed as nat) as u64 }
    } else {
        Thrust::Coast {
            decay: FORCE_DECAY,
            drag: COAST_DAMPING,
            limit: force_limit(boost, max_speed as nat) as u64,
        }
    }
}

/// Parts in a thousand that the angular velocity loses in a tick: some
/// only while neither turn, or both, are asked for.
pub open spec fn spin_damping_of(turn_left: bool, turn_right: bool) -> Option<u64> {
    if turn_left == turn_right {
        Some(SPIN_DAMPING)
    } else {
        None
    }
}

impl Keys {
    /// No key pressed.
    pub fn none() -> (keys: Keys)
        ensures
            keys == (Keys {
                left: false,
                a: false,
                right: false,
                d: false,
                w: false,
                up: false,
                shift: false,
                space: false,
            }),
    {
        Keys {
            left: false,
            a: false,
            right: false,
            d: false,
            w: false,
            up: false,
            shift: false,
            space: false,
        }
    }

    /// The controls that these keys stand for: either arrow or its letter
    /// turns, `w` or the up arrow gives thrust, shift boosts, space shoots.
    pub fn controls(&self) -> (controls: Controls)
        ensures
            controls == controls_of(*self),
    {
        Controls {
            turn_left: self.left || self.a,
            turn_right: self.right || self.d,
            gas: self.w || self.up,
            boost: self.shift,
            shoot: self.space,
        }
    }
}

/// What the contracts say of a `Player`.
pub struct PlayerView {
    pub health: nat,
    pub max_health: nat,
    pub speed: nat,
    pub max_speed: nat,
    pub torque: int,
    pub max_torque: int,
    /// Ticks seen so far, counted modulo 2^64.
    pub ticks: nat,
}

impl PlayerView {
    /// What holds of every craft: health within its maximum, torque within
    /// its limit, a limit that leaves room for a turn, a force limit that
    /// boost can raise, and numbers that fit the machine's.
    pub open spec fn well_formed(self) -> bool {
        &&& self.health <= self.max_health <= u64::MAX
        &&& self.speed <= u64::MAX
        &&& BOOST_FACTOR * self.max_speed <= u64::MAX
        &&& 0 <= self.max_torque <= i64::MAX - 2 * TURN_SPEED
        &&& -self.max_torque <= self.torque <= self.max_torque
        &&& self.ticks <= u64::MAX
    }
}

/// The state of the player's craft that the rules read and change.
pub struct Player {
    health_points: u64,
    max_health_points: u64,
    speed: u64,
    max_speed: u64,
    torque: i64,
    max_torque: i64,
    counter: u64,
}

impl View for Player {
    type V = PlayerView;

    closed spec fn view(&self) -> PlayerView {
        PlayerView {
            health: self.health_points as nat,
            max_health: self.max_health_points as nat,
            speed: self.speed as nat,
            max_speed: self.max_speed as nat,
            torque: self.torque as int,
            max_torque: self.max_torque as int,
            ticks: self.counter as nat,
        }
    }
}

impl Player {
    #[verifier::type_invariant]
    spec fn within_limits(&self) -> bool {
        &&& self.health_points <= self.max_health_points
        &&& 0 <= self.max_torque <= i64::MAX - 2 * TURN_SPEED
        &&& -self.max_torque <= self.torque <= self.max_torque
        &&& self.max_speed * BOOST_FACTOR <= u64::MAX
    }

    /// A craft at rest, at full health.
    pub fn init() -> (player: Player)
        ensures
            player@ == (PlayerView {
                health: PLAYER_HEALTH as nat,
                max_health: PLAYER_HEALTH as nat,
                speed: SPEED as nat,
                max_speed: MAX_SPEED as nat,
                torque: 0,
                max_torque: MAX_TORQUE as int,
                ticks: 0,
            }),
            player@.well_formed(),
    {
        Player {
            health_points: PLAYER_HEALTH,
            max_health_points: PLAYER_HEALTH,
            speed: SPEED,
            max_speed: MAX_SPEED,
            torque: 0,
            max_torque: MAX_TORQUE,
            counter: 0,
        }
    }

    /// Current health, the value that the health bar shows.
    pub fn health_points(&self) -> (health: u64)
        ensures
            health == self@.health,
            self@.well_formed(),
    {
        proof {
            use_type_invariant(self);
        }
        self.health_points
    }

    /// The health bar's maximum.
    pub fn max_health_points(&self) -> (max: u64)
        ensures
            max == self@.max_health,
            self@.well_formed(),
    {
        proof {
            use_type_invariant(self);
        }
        self.max_health_points
    }

    /// The torque that the last tick applied.
    pub fn torque(&self) -> (torque: i64)
        ensures
            torque == self@.torque,
            self@.well_formed(),
    {
        proof {
            use_type_invariant(self);
        }
        self.torque
    }

    /// The craft's torque limit.
    pub fn max_torque(&self) -> (max: i64)
        ensures
            max == self@.max_torque,
            self@.well_formed(),
    {
        proof {
            use_type_invariant(self);
        }
        self.max_torque
    }

    /// One tick of turning on `torque`. Returns the parts in a thousand
    /// that the angular velocity loses, if any.
    pub fn turn(torque: &mut i64, turn_left: bool, turn_right: bool) -> (spin_damping: Option<u64>)
        requires
            i64::MIN + 2 * TURN_SPEED <= *old(torque) <= i64::MAX - 2 * TURN_SPEED,
        ensures
            *final(torque) == turned(*old(torque) as int, turn_left, turn_right),
            spin_damping == spin_damping_of(turn_left, turn_right),
    {
        if turn_right && !turn_left {
            if *torque < 0 {
                *torque = *torque + 2 * TURN_SPEED;
            } else {
                *torque = *torque + TURN_SPEED;
            }
            None
        } else if turn_left && !turn_right {
            if *torque > 0 {
                *torque = *torque - 2 * TURN_SPEED;
            } else {
                *torque = *torque - TURN_SPEED;
            }
            None
        } else {
            *torque = 0;
            Some(SPIN_DAMPING)
        }
    }

    /// Snaps `torque` to zero inside the dead zone, holds it within
    /// `max_torque` either way, and returns what is to be applied.
    pub fn limit_torque(torque: &mut i64, max_torque: i64) -> (applied: i64)
        requires
            max_torque >= 0,
        ensures
            *final(torque) == limited(*old(torque) as int, max_torque as int),
            applied == *final(torque),
            -max_torque <= applied <= max_torque,
    {
        if -TORQUE_DEADZONE < *torque && *torque < TORQUE_DEADZONE {
            *torque = 0;
        } else if *torque > max_torque {
            *torque = max_torque;
        } else if *torque < -max_torque {
            *torque = -max_torque;
        }
        *torque
    }

    /// What becomes of the force in a tick: it grows by `speed` under
    /// thrust and decays without; its limit is `max_speed`, five times
    /// that with boost.
    pub fn gas(gas: bool, boost: bool, speed: u64, max_speed: u64) -> (thrust: Thrust)
        requires
            max_speed * BOOST_FACTOR <= u64::MAX,
        ensures
            thrust == thrust_of(gas, boost, speed, max_speed),
    {
        let limit: u64 = if boost {
            BOOST_FACTOR * max_speed
        } else {
            max_speed
        };
        if gas {
            Thrust::Burn { push: speed, limit }
        } else {
            Thrust::Coast { decay: FORCE_DECAY, drag: COAST_DAMPING, limit }
        }
    }

    /// One physics tick with the keys as polled. The torque turns and is
    /// limited, the thrust is decided, and the tick is counted: the report
    /// is due on every sixtieth.
    pub fn physics_process(&mut self, keys: &Keys) -> (step: Step)
        ensures
            old(self)@.well_formed(),
            final(self)@.well_formed(),
            final(self)@ == (PlayerView {
                torque: limited(
                    turned(old(self)@.torque, controls_of(*keys).turn_left, controls_of(*keys).turn_right),
                    old(self)@.max_torque,
                ),
                ticks: next_tick(old(self)@.ticks),
                ..old(self)@
            }),
            step.torque == final(self)@.torque,
            -final(self)@.max_torque <= step.torque <= final(self)@.max_torque,
            step == (Step {
                spin_damping: spin_damping_of(
                    controls_of(*keys).turn_left,
                    controls_of(*keys).turn_right,
                ),
                torque: final(self)@.torque as i64,
                thrust: thrust_of(
                    controls_of(*keys).gas,
                    controls_of(*keys).boost,
                    old(self)@.speed as u64,
                    old(self)@.max_speed as u64,
                ),
                shoot: controls_of(*keys).shoot,
                report: report_due(final(self)@.ticks),
            }),
    {
        proof {
            use_type_invariant(&*self);
        }
        let controls: Controls = keys.controls();
        let mut torque: i64 = self.torque;
        let spin_damping: Option<u64> = Self::turn(&mut torque, controls.turn_left, controls.turn_right);
        let applied: i64 = Self::limit_torque(&mut torque, self.max_torque);
        self.torque = torque;
        let thrust: Thrust = Self::gas(controls.gas, controls.boost, self.speed, self.max_speed);
        let mut counter: u64 = self.counter;
        let report: bool = tick(&mut counter);
        self.counter = counter;
        Step { spin_damping, torque: applied, thrust, shoot: controls.shoot, report }
    }
}

/// From a torque within the limit, no run of turns leads out of it.
pub proof fn lemma_torque_stays_within_limit(torque: int, max_torque: int, turns: Seq<(bool, bool)>)
    requires
        max_torque >= 0,
        -max_torque <= torque <= max_torque,
    ensures
        -max_torque <= torque_after(torque, max_torque, turns) <= max_torque,
    decreases turns.len(),
{
    if turns.len() > 0 {
        lemma_torque_stays_within_limit(
            limited(turned(torque, turns[0].0, turns[0].1), max_torque),
            max_torque,
            turns.drop_first(),
        );
    }
}

/// Whatever the torque was, after one tick or more of any turns it lies
/// within the limit.
pub proof fn lemma_torque_limited_after_any_turns(
    torque: int,
    max_torque: int,
    turns: Seq<(bool, bool)>,
)
    requires
        max_torque >= 0,
        turns.len() > 0,
    ensures
        -max_torque <= torque_after(torque, max_torque, turns) <= max_torque,
{
    lemma_torque_stays_within_limit(
        limited(turned(torque, turns[0].0, turns[0].1), max_torque),
        max_torque,
        turns.drop_first(),
    );
}

/// With no turn asked for, one tick brings any torque to zero, and there
/// it stays.
pub proof fn lemma_torque_settles(torque: int, max_torque: int, ticks: nat)
    requires
        max_torque >= 0,
        ticks > 0,
    ensures
        torque_after(torque, max_torque, Seq::new(ticks, |i: int| (false, false))) == 0,
    decreases ticks,
{
    let idle: Seq<(bool, bool)> = Seq::new(ticks, |i: int| (false, false));
    let rest: Seq<(bool, bool)> = idle.drop_first();
    assert(rest =~= Seq::new((ticks - 1) as nat, |i: int| (false, false)));
    assert(idle[0] == (false, false));
    assert(limited(turned(torque, false, false), max_torque) == 0);
    assert(torque_after(torque, max_torque, idle) == torque_after(0, max_torque, rest));
    if ticks > 1 {
        lemma_torque_settles(0, max_torque, (ticks - 1) as nat);
    } else {
        assert(rest.len() == 0);
        assert(torque_after(0, max_torque, rest) == 0);
    }
}

} // verus!
