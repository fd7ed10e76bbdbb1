//! The level's director: where new enemies appear around the player, and
//! which enemies the level still tracks.

use std::collections::HashMap;
use vstd::arithmetic::div_mod::lemma_mod_bound;
use vstd::prelude::*;
use crate::utils::{next_tick, report_due, tick};

verus! {

broadcast use vstd::std_specs::hash::group_hash_axioms;

/// The angles that a spawn point can take, in whole degrees.
pub const FULL_TURN: i64 = 360;

/// How far from the player an enemy appears on a timer tick, and the
/// least distance of a scattered one.
pub const NEAR_RADIUS: i64 = 200;

/// The width of the ring in which enemies are scattered.
pub const SCATTER_SPAN: i64 = 3000;

/// How many enemies are scattered when the level starts.
pub const SCATTERED_AT_START: usize = 10;

/// Where an enemy appears, as seen from the player: `angle` in whole
/// degrees, `radius` in units.
#[derive(Clone, Copy, Debug, PartialEq, Eq, Structural)]
pub struct SpawnPoint {
    pub angle: i64,
    pub radius: i64,
}

/// The spawn point of a timer tick for a random draw: any angle, at
/// `NEAR_RADIUS`.
pub open spec fn near_point(draw: i64) -> SpawnPoint {
    SpawnPoint { angle: (draw as int % FULL_TURN as int) as i64, radius: NEAR_RADIUS }
}

/// The spawn point of a scattered enemy for two random draws: any angle,
/// at `NEAR_RADIUS` or more and less than `SCATTER_SPAN` beyond it.
pub open spec fn scattered_point(angle_draw: i64, radius_draw: i64) -> SpawnPoint {
    SpawnPoint {
        angle: (angle_draw as int % FULL_TURN as int) as i64,
        radius: (radius_draw as int % SCATTER_SPAN as int + NEAR_RADIUS) as i64,
    }
}

/// The remainder of `draw` by `modulus` that is never negative.
fn wrap_into(draw: i64, modulus: i64) -> (wrapped: i64)
    requires
        0 < modulus,
    ensures
        wrapped == draw as int % modulus as int,
        0 <= wrapped < modulus,
{
    proof {
        lemma_mod_bound(draw as int, modulus as int);
    }
    match draw.checked_rem_euclid(modulus) {
        Some(remainder) => remainder,
        None => 0,
    }
}

impl SpawnPoint {
    /// The spawn point of a timer tick, from one random draw.
    pub fn near(draw: i64) -> (point: SpawnPoint)
        ensures
            point == near_point(draw),
            0 <= point.angle < FULL_TURN,
            point.radius == NEAR_RADIUS,
    {
        SpawnPoint { angle: wrap_into(draw, FULL_TURN), radius: NEAR_RADIUS }
    }

    /// The spawn point of a scattered enemy, from two random draws.
    pub fn scattered(angle_draw: i64, radius_draw: i64) -> (point: SpawnPoint)
        ensures
            point == scattered_point(angle_draw, radius_draw),
            0 <= point.angle < FULL_TURN,
            NEAR_RADIUS <= point.radius < NEAR_RADIUS + SCATTER_SPAN,
    {
        SpawnPoint {
            angle: wrap_into(angle_draw, FULL_TURN),
            radius: wrap_into(radius_draw, SCATTER_SPAN) + NEAR_RADIUS,
        }
    }

    /// One scattered spawn point for each pair of draws, in their order.
    pub fn scatter(draws: &Vec<(i64, i64)>) -> (points: Vec<SpawnPoint>)
        ensures
            points.len() == draws.len(),
            forall|i: int|
                0 <= i < draws.len() ==> #[trigger] points[i] == scattered_point(
                    draws[i].0,
                    draws[i].1,
                ),
    {
        let mut points: Vec<SpawnPoint> = Vec::new();
        let mut next: usize = 0;
        while next < draws.len()
            invariant
                next <= draws.len(),
                points.len() == next,
                forall|i: int|
                    0 <= i < next ==> #[trigger] points[i] == scattered_point(
                        draws[i].0,
                        draws[i].1,
                    ),
            decreases draws.len() - next,
        {
            let draw: (i64, i64) = draws[next];
            points.push(SpawnPoint::scattered(draw.0, draw.1));
            next = next + 1;
        }
        points
    }
}

/// What the contracts say of a `TestLevel`.
pub struct TestLevelView<H> {
    /// The tracked enemies' handles by their identities.
    pub enemies: Map<i64, H>,
    /// Frames seen so far, counted modulo 2^64.
    pub ticks: nat,
}

impl<H> TestLevelView<H> {
    /// What holds of every level: it tracks finitely many enemies, no more
    /// than can be counted, and its frame count fits the machine's.
    pub open spec fn well_formed(self) -> bool {
        &&& self.enemies.dom().finite()
        &&& self.enemies.len() <= usize::MAX
        &&& self.ticks <= u64::MAX
    }
}

/// The enemies that a level tracks, each handle under its enemy's
/// identity, and the level's frame counter.
pub struct TestLevel<H> {
    enemies: HashMap<i64, H>,
    counter: u64,
}

impl<H> View for TestLevel<H> {
    type V = TestLevelView<H>;

    closed spec fn view(&self) -> TestLevelView<H> {
        TestLevelView { enemies: self.enemies@, ticks: self.counter as nat }
    }
}

/// A hash map holds finitely many entries, no more than can be counted.
proof fn lemma_countable<H>(enemies: &HashMap<i64, H>)
    ensures
        enemies@.dom().finite(),
        enemies@.len() <= usize::MAX,
{
    assert(enemies.len() == enemies@.len());
}

impl<H> TestLevel<H> {
    /// A level that tracks no enemy yet.
    pub fn init() -> (level: Self)
        ensures
            level@.enemies == Map::<i64, H>::empty(),
            level@.ticks == 0,
            level@.well_formed(),
    {
        TestLevel { enemies: HashMap::new(), counter: 0 }
    }

    /// Tracks `enemy` under `id`; a handle already tracked under `id`
    /// gives way to it.
    pub fn spawn_enemy(&mut self, id: i64, enemy: H)
        ensures
            old(self)@.well_formed(),
            final(self)@.well_formed(),
            final(self)@.enemies == old(self)@.enemies.insert(id, enemy),
            final(self)@.ticks == old(self)@.ticks,
    {
        proof {
            lemma_countable(&self.enemies);
        }
        self.enemies.insert(id, enemy);
        proof {
            lemma_countable(&self.enemies);
        }
    }

    /// The timer fired: tracks the new `enemy` under `id` and returns where
    /// it appears, which `draw` decides.
    pub fn spawn_enemy_near(&mut self, draw: i64, id: i64, enemy: H) -> (point: SpawnPoint)
        ensures
            old(self)@.well_formed(),
            final(self)@.well_formed(),
            point == near_point(draw),
            0 <= point.angle < FULL_TURN,
            point.radius == NEAR_RADIUS,
            final(self)@.enemies == old(self)@.enemies.insert(id, enemy),
            final(self)@.ticks == old(self)@.ticks,
    {
        let point: SpawnPoint = SpawnPoint::near(draw);
        self.spawn_enemy(id, enemy);
        point
    }

    /// The enemy `id` announced its despawn: it is tracked no longer. Hands
    /// back its handle, or nothing if no such enemy was tracked, which the
    /// host reports and otherwise ignores.
    pub fn despawn_enemy(&mut self, id: i64) -> (enemy: Option<H>)
        ensures
            old(self)@.well_formed(),
            final(self)@.well_formed(),
            final(self)@.enemies == old(self)@.enemies.remove(id),
            !final(self)@.enemies.contains_key(id),
            final(self)@.ticks == old(self)@.ticks,
            enemy == if old(self)@.enemies.contains_key(id) {
                Some(old(self)@.enemies[id])
            } else {
                None
            },
    {
        proof {
            lemma_countable(&self.enemies);
        }
        let enemy: Option<H> = self.enemies.remove(&id);
        proof {
            lemma_countable(&self.enemies);
        }
        enemy
    }

    /// Whether an enemy is tracked under `id`.
    pub fn is_tracked(&self, id: i64) -> (known: bool)
        ensures
            known == self@.enemies.contains_key(id),
            self@.well_formed(),
    {
        proof {
            lemma_countable(&self.enemies);
        }
        self.enemies.contains_key(&id)
    }

    /// How many enemies are tracked.
    pub fn enemy_count(&self) -> (count: usize)
        ensures
            count == self@.enemies.len(),
            self@.well_formed(),
    {
        proof {
            lemma_countable(&self.enemies);
        }
        self.enemies.len()
    }

    /// One frame passed. On every sixtieth, returns the number of tracked
    /// enemies for the debug label.
    pub fn process(&mut self) -> (count: Option<usize>)
        ensures
            old(self)@.well_formed(),
            final(self)@.well_formed(),
            final(self)@.enemies == old(self)@.enemies,
            final(self)@.ticks == next_tick(old(self)@.ticks),
            count == if report_due(final(self)@.ticks) {
                Some(old(self)@.enemies.len() as usize)
            } else {
                None
            },
    {
        proof {
            lemma_countable(&self.enemies);
        }
        if tick(&mut self.counter) {
            Some(self.enemies.len())
        } else {
            None
        }
    }
}

/// Something that changes which enemies a level tracks.
pub enum LevelEvent {
    /// An enemy with this identity was spawned and tracked.
    Spawned { id: i64 },
    /// The enemy with this identity announced its despawn.
    Despawned { id: i64 },
}

/// The identities tracked after `events` happened in order to a level that
/// started with those of `start`.
pub open spec fn tracked_after(start: Set<i64>, events: Seq<LevelEvent>) -> Set<i64>
    decreases events.len(),
{
    if events.len() == 0 {
        start
    } else {
        let before: Set<i64> = tracked_after(start, events.drop_last());
        match events.last() {
            LevelEvent::Spawned { id } => before.insert(id),
            LevelEvent::Despawned { id } => before.remove(id),
        }
    }
}

/// Whether `events` holds a spawn of `id` with no despawn of `id` after it.
pub open spec fn alive_after(events: Seq<LevelEvent>, id: i64) -> bool {
    exists|i: int|
        0 <= i < events.len() && #[trigger] events[i] == (LevelEvent::Spawned { id }) && forall|
            j: int,
        |
            i < j < events.len() ==> #[trigger] events[j] != (LevelEvent::Despawned { id })
}

/// After any run of spawns and despawns on an empty level, the tracked
/// identities are those of the enemies that were spawned and have not
/// announced their despawn since.
pub proof fn lemma_tracked_are_alive(events: Seq<LevelEvent>, id: i64)
    ensures
        tracked_after(Set::empty(), events).contains(id) <==> alive_after(events, id),
    decreases events.len(),
{
    if events.len() > 0 {
        let earlier: Seq<LevelEvent> = events.drop_last();
        let last: int = events.len() - 1;
        lemma_tracked_are_alive(earlier, id);
        assert forall|i: int| 0 <= i < earlier.len() implies earlier[i] == events[i] by {}
        if events.last() == (LevelEvent::Spawned { id }) {
            assert(events[last] == (LevelEvent::Spawned { id }));
        } else if events.last() == (LevelEvent::Despawned { id }) {
            assert(events[last] == (LevelEvent::Despawned { id }));
        } else {
            if alive_after(earlier, id) {
                let i: int = choose|i: int|
                    0 <= i < earlier.len() && #[trigger] earlier[i] == (LevelEvent::Spawned { id })
                        && forall|j: int|
                        i < j < earlier.len() ==> #[trigger] earlier[j] != (LevelEvent::Despawned {
                            id,
                        });
                assert(events[i] == (LevelEvent::Spawned { id }));
                assert forall|j: int| i < j < events.len() implies #[trigger] events[j] != (
                LevelEvent::Despawned { id }) by {
                    if j < last {
                        assert(earlier[j] == events[j]);
                    }
                }
            }
            if alive_after(events, id) {
                let i: int = choose|i: int|
                    0 <= i < events.len() && #[trigger] events[i] == (LevelEvent::Spawned { id })
                        && forall|j: int|
                        i < j < events.len() ==> #[trigger] events[j] != (LevelEvent::Despawned {
                            id,
                        });
                assert(i < last);
                assert(earlier[i] == (LevelEvent::Spawned { id }));
                assert forall|j: int| i < j < earlier.len() implies #[trigger] earlier[j] != (
                LevelEvent::Despawned { id }) by {
                    assert(earlier[j] == events[j]);
                }
            }
        }
    }
}

} // verus!
