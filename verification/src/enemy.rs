//! An enemy's health, the hits it takes and its diagnostic clock.

use vstd::prelude::*;
use crate::utils::{next_tick, report_due, tick};

verus! {

/// Health of a freshly spawned enemy, which is also its maximum.
pub const ENEMY_HEALTH: u64 = 100;

/// Damage dealt by one bullet.
pub const BULLET_DAMAGE: u64 = 10;

/// What the host has to do after damage was dealt.
#[derive(Clone, Copy, Debug, PartialEq, Eq, Structural)]
pub enum DamageOutcome {
    /// The actor was dead already: nothing changed and nothing is signalled.
    Ignored,
    /// The actor lives on with this much health, which its bar now shows.
    Wounded { health: u64 },
    /// Health reached zero on this hit: the bar shows zero, the despawn
    /// notification goes out with the actor's identity, and the actor is
    /// marked for destruction.
    Despawned,
}

/// Health left when `damage` is taken from `health`: never below zero.
pub open spec fn health_after(health: nat, damage: nat) -> nat {
    if damage >= health {
        0
    } else {
        (health - damage) as nat
    }
}

/// What a hit of `damage` on an actor with `health` asks of the host.
pub open spec fn outcome_of(health: nat, damage: nat) -> DamageOutcome {
    if health == 0 {
        DamageOutcome::Ignored
    } else if damage >= health {
        DamageOutcome::Despawned
    } else {
        DamageOutcome::Wounded { health: (health - damage) as u64 }
    }
}

/// Health left after the hits of `hits` were taken in order.
pub open spec fn health_after_all(health: nat, hits: Seq<nat>) -> nat
    decreases hits.len(),
{
    if hits.len() == 0 {
        health
    } else {
        health_after_all(health_after(health, hits[0]), hits.drop_first())
    }
}

/// How many of the hits of `hits`, taken in order, send a despawn notification.
pub open spec fn despawns_in(health: nat, hits: Seq<nat>) -> nat
    decreases hits.len(),
{
    if hits.len() == 0 {
        0
    } else {
        let rest: nat = despawns_in(health_after(health, hits[0]), hits.drop_first());
        if outcome_of(health, hits[0]) == DamageOutcome::Despawned {
            rest + 1
        } else {
            rest
        }
    }
}

/// The sum of the hits of `hits`.
pub open spec fn total_damage(hits: Seq<nat>) -> nat
    decreases hits.len(),
{
    if hits.len() == 0 {
        0
    } else {
        hits[0] + total_damage(hits.drop_first())
    }
}

/// What the contracts say of an `Enemy`.
pub struct EnemyView {
    pub health: nat,
    /// The health the enemy was spawned with.
    pub max_health: nat,
    /// Frames seen so far, counted modulo 2^64.
    pub ticks: nat,
}

impl EnemyView {
    /// What holds of every enemy: health within its maximum, and numbers
    /// that fit the machine's.
    pub open spec fn well_formed(self) -> bool {
        &&& self.health <= self.max_health <= u64::MAX
        &&& self.ticks <= u64::MAX
    }
}

/// The state of one enemy that the rules read and change.
pub struct Enemy {
    health_points: u64,
    max_health_points: u64,
    counter: u64,
}

impl View for Enemy {
    type V = EnemyView;

    closed spec fn view(&self) -> EnemyView {
        EnemyView {
            health: self.health_points as nat,
            max_health: self.max_health_points as nat,
            ticks: self.counter as nat,
        }
    }
}

impl Enemy {
    #[verifier::type_invariant]
    spec fn within_maximum(&self) -> bool {
        self.health_points <= self.max_health_points
    }

    /// A new enemy at full health.
    pub fn init() -> (enemy: Enemy)
        ensures
            enemy@ == (EnemyView {
                health: ENEMY_HEALTH as nat,
                max_health: ENEMY_HEALTH as nat,
                ticks: 0,
            }),
            enemy@.well_formed(),
    {
        Enemy { health_points: ENEMY_HEALTH, max_health_points: ENEMY_HEALTH, counter: 0 }
    }

    /// Current health, the value that the health bar shows.
    pub fn health_points(&self) -> (health: u64)
        ensures
            health == self@.health,
            self@.well_formed(),
    {
        proof {
            use_type_invariant(self);
        }
        self.health_points
    }

    /// The health bar's maximum.
    pub fn max_health_points(&self) -> (max: u64)
        ensures
            max == self@.max_health,
            self@.well_formed(),
    {
        proof {
            use_type_invariant(self);
        }
        self.max_health_points
    }

    /// Takes `damage` from the enemy's health, stopping at zero, and says
    /// what the host has to do. A dead enemy is left as it is.
    pub fn take_damage(&mut self, damage: u64) -> (outcome: DamageOutcome)
        ensures
            old(self)@.well_formed(),
            final(self)@.well_formed(),
            final(self)@ == (EnemyView {
                health: health_after(old(self)@.health, damage as nat),
                ..old(self)@
            }),
            outcome == outcome_of(old(self)@.health, damage as nat),
    {
        proof {
            use_type_invariant(&*self);
        }
        if self.health_points == 0 {
            DamageOutcome::Ignored
        } else if damage >= self.health_points {
            self.health_points = 0;
            DamageOutcome::Despawned
        } else {
            self.health_points = self.health_points - damage;
            DamageOutcome::Wounded { health: self.health_points }
        }
    }

    /// A body touched the enemy. A bullet deals `BULLET_DAMAGE` and is then
    /// destroyed by the host, whatever the outcome; any other body is
    /// ignored.
    pub fn body_entered(&mut self, is_bullet: bool) -> (hit: Option<DamageOutcome>)
        ensures
            old(self)@.well_formed(),
            final(self)@.well_formed(),
            is_bullet ==> hit == Some(outcome_of(old(self)@.health, BULLET_DAMAGE as nat))
                && final(self)@ == (EnemyView {
                health: health_after(old(self)@.health, BULLET_DAMAGE as nat),
                ..old(self)@
            }),
            !is_bullet ==> hit.is_none() && final(self)@ == old(self)@,
    {
        proof {
            use_type_invariant(&*self);
        }
        if is_bullet {
            Some(self.take_damage(BULLET_DAMAGE))
        } else {
            None
        }
    }

    /// One frame passed. Returns whether a position snapshot is due, which
    /// it is on every sixtieth frame.
    pub fn process(&mut self) -> (report: bool)
        ensures
            old(self)@.well_formed(),
            final(self)@.well_formed(),
            final(self)@ == (EnemyView { ticks: next_tick(old(self)@.ticks), ..old(self)@ }),
            report == report_due(final(self)@.ticks),
    {
        proof {
            use_type_invariant(&*self);
        }
        let mut counter: u64 = self.counter;
        let report: bool = tick(&mut counter);
        self.counter = counter;
        report
    }
}

/// Damage on a dead actor changes nothing: whatever hits follow, health
/// stays at zero and no despawn notification is sent.
pub proof fn lemma_dead_stays_dead(hits: Seq<nat>)
    ensures
        health_after_all(0, hits) == 0,
        despawns_in(0, hits) == 0,
    decreases hits.len(),
{
    if hits.len() > 0 {
        lemma_dead_stays_dead(hits.drop_first());
    }
}

/// Over any run of hits health falls by their sum and stops at zero, and
/// the despawn notification is sent once if the run brings a living actor
/// to zero, and not at all otherwise.
pub proof fn lemma_despawn_exactly_once(health: nat, hits: Seq<nat>)
    ensures
        health_after_all(health, hits) == health_after(health, total_damage(hits)),
        despawns_in(health, hits) == if health > 0 && total_damage(hits) >= health {
            1nat
        } else {
            0nat
        },
    decreases hits.len(),
{
    if hits.len() > 0 {
        let left: nat = health_after(health, hits[0]);
        lemma_despawn_exactly_once(left, hits.drop_first());
        if left == 0 {
            lemma_dead_stays_dead(hits.drop_first());
        }
    }
}

} // verus!
