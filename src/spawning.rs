//! Spawn-rate controllers: how many items a spawner releases each tick.
use vstd::prelude::*;

use crate::rng::random_between;

verus! {

/// One whole spawn, in the unit in which [`SpawnRate`] accumulates.
///
/// A rate is given in thousandths of a spawn per second and a time step in
/// nanoseconds, so their product counts `10^-12` of a spawn.
pub const SPAWN_UNIT: u128 = 1_000_000_000_000;

/// A projectile spawning rate controller.
pub trait ProjectileSpawning: Sized {
    /// The states in which the controller can be driven.
    spec fn well_formed(&self) -> bool;

    /// An upper bound on the spawns that can still be granted before the next `update`.
    spec fn pending(&self) -> nat;

    /// Whether the controller has stopped spawning for good.
    spec fn is_finished(&self) -> bool;

    /// Whether one call of `try_spawn` may take `before` to `after` and return `granted`.
    spec fn spawn_step(before: Self, after: Self, granted: bool) -> bool;

    /// Whether `update(dt)` may take `before` to `after`.
    spec fn update_step(before: Self, after: Self, dt: u64) -> bool;

    /// Advances the controller by `dt` nanoseconds.
    fn update(&mut self, dt: u64)
        requires
            old(self).well_formed(),
        ensures
            final(self).well_formed(),
            Self::update_step(*old(self), *final(self), dt),
    ;

    /// Takes one spawn, if one is available.
    fn try_spawn(&mut self) -> (r: bool)
        requires
            old(self).well_formed(),
        ensures
            final(self).well_formed(),
            Self::spawn_step(*old(self), *final(self), r),
            r ==> final(self).pending() < old(self).pending(),
            final(self).pending() <= old(self).pending(),
    ;

    fn finished(&self) -> (r: bool)
        ensures
            r == self.is_finished(),
    ;

    /// Calls `f` if a spawn is available.
    fn spawn<T, F: FnOnce() -> T>(&mut self, f: F) -> (r: Option<T>)
        requires
            old(self).well_formed(),
            f.requires(()),
        ensures
            final(self).well_formed(),
            Self::spawn_step(*old(self), *final(self), r is Some),
            r matches Some(v) ==> f.ensures((), v),
    {
        if self.try_spawn() {
            Some(f())
        } else {
            None
        }
    }

    /// Counts how many projectiles should spawn, and takes them from the controller.
    ///
    /// Unless a controller counts in its own way, this calls `try_spawn` until it refuses.
    fn spawn_count(&mut self) -> (r: usize)
        requires
            old(self).well_formed(),
            old(self).pending() <= usize::MAX,
        ensures
            final(self).well_formed(),
            r <= old(self).pending(),
        default_ensures
            exists|trace: Seq<Self>|
                {
                    &&& trace.len() == r + 2
                    &&& trace[0] == *old(self)
                    &&& trace.last() == *final(self)
                    &&& forall|i: int|
                        0 <= i < r ==> #[trigger] Self::spawn_step(trace[i], trace[i + 1], true)
                    &&& Self::spawn_step(trace[r as int], trace[r + 1], false)
                },
    {
        let mut count: usize = 0;
        let ghost mut trace: Seq<Self> = seq![*self];
        loop
            invariant_except_break
                trace.len() == count + 1,
                trace.last() == *self,
            invariant
                self.well_formed(),
                count + self.pending() <= old(self).pending(),
                old(self).pending() <= usize::MAX,
                trace.len() >= count + 1,
                trace[0] == *old(self),
                forall|i: int|
                    0 <= i < count ==> #[trigger] Self::spawn_step(trace[i], trace[i + 1], true),
            ensures
                trace.len() == count + 2,
                trace.last() == *self,
                Self::spawn_step(trace[count as int], trace[count + 1], false),
            decreases self.pending(),
        {
            let ghost before = *self;
            if !self.try_spawn() {
                proof {
                    let full = trace.push(*self);
                    assert(full[count as int] == before);
                    assert forall|i: int| 0 <= i < count implies #[trigger] Self::spawn_step(
                        full[i],
                        full[i + 1],
                        true,
                    ) by {
                        assert(full[i] == trace[i] && full[i + 1] == trace[i + 1]);
                    }
                    assert(Self::spawn_step(full[count as int], full[count + 1], false));
                    trace = full;
                }
                break;
            }
            proof {
                let grown = trace.push(*self);
                assert forall|i: int| 0 <= i < count + 1 implies #[trigger] Self::spawn_step(
                    grown[i],
                    grown[i + 1],
                    true,
                ) by {
                    if i < count {
                        assert(grown[i] == trace[i] && grown[i + 1] == trace[i + 1]);
                    }
                }
                trace = grown;
            }
            count += 1;
        }
        assert(trace.len() == count + 2 && trace[0] == *old(self) && trace.last() == *self);
        count
    }

    /// Limits the number of projectiles that can spawn.
    fn limit(self, count: usize) -> (r: Limit<Self>)
        ensures
            r.base == self,
            r.count == count,
    {
        Limit { base: self, count }
    }

    /// Each time the base controller would spawn once, spawns `x` times immediately instead.
    fn in_bursts(self, x: usize) -> (r: RandomBursts<Self>)
        ensures
            r.base == self,
            r.min == x,
            r.max == x,
            r.current == 0,
    {
        RandomBursts { base: self, min: x, max: x, current: 0, rng: fastrand::Rng::new() }
    }

    /// Each time the base controller would spawn once, spawns a random number of times
    /// in `min..=max` immediately instead.
    fn in_random_bursts(self, min: usize, max: usize) -> (r: RandomBursts<Self>)
        requires
            min <= max,
        ensures
            r.base == self,
            r.min == min,
            r.max == max,
            r.current == 0,
    {
        RandomBursts { base: self, min, max, current: 0, rng: fastrand::Rng::new() }
    }
}

/// A linear spawning rate that never ends.
///
/// `meta` holds the spawns accumulated so far, in units of [`SPAWN_UNIT`].
#[derive(Debug, Clone, Copy, Default)]
pub struct SpawnRate {
    pub milli_per_second: u64,
    pub meta: u128,
}

/// `a + b`, or the largest `u128` where the sum does not fit.
pub open spec fn saturating_sum(a: int, b: int) -> int {
    if a + b > u128::MAX {
        u128::MAX as int
    } else {
        a + b
    }
}

impl SpawnRate {
    /// The controller after `update(dt)`.
    pub open spec fn updated(self, dt: u64) -> SpawnRate {
        SpawnRate {
            meta: saturating_sum(self.meta as int, self.milli_per_second * dt) as u128,
            ..self
        }
    }

    /// Creates a controller that spawns `milli_per_second / 1000` times per second.
    pub fn new(milli_per_second: u64) -> (r: Self)
        ensures
            r.milli_per_second == milli_per_second,
            r.meta == 0,
    {
        SpawnRate { milli_per_second, meta: 0 }
    }

    pub fn set(&mut self, milli_per_second: u64)
        ensures
            *final(self) == (SpawnRate { milli_per_second, ..*old(self) }),
    {
        self.milli_per_second = milli_per_second;
    }

    /// Makes sure that `times` projectiles spawn immediately.
    pub fn with_spawn_immediately(self, times: usize) -> (r: Self)
        ensures
            r == (SpawnRate {
                meta: saturating_sum(self.meta as int, times * SPAWN_UNIT) as u128,
                ..self
            }),
    {
        let mut r = self;
        r.spawn_immediately(times);
        r
    }

    /// Makes sure that `times` projectiles spawn immediately.
    pub fn spawn_immediately(&mut self, times: usize)
        ensures
            *final(self) == (SpawnRate {
                meta: saturating_sum(old(self).meta as int, times * SPAWN_UNIT) as u128,
                ..*old(self)
            }),
    {
        assert(times * SPAWN_UNIT <= u128::MAX) by (nonlinear_arith)
            requires
                times <= usize::MAX,
                usize::MAX <= u64::MAX,
        ;
        self.meta = self.meta.saturating_add(times as u128 * SPAWN_UNIT);
    }
}

impl ProjectileSpawning for SpawnRate {
    open spec fn well_formed(&self) -> bool {
        true
    }

    open spec fn pending(&self) -> nat {
        (self.meta / SPAWN_UNIT) as nat
    }

    open spec fn is_finished(&self) -> bool {
        false
    }

    open spec fn update_step(before: Self, after: Self, dt: u64) -> bool {
        after == before.updated(dt)
    }

    open spec fn spawn_step(before: Self, after: Self, granted: bool) -> bool {
        &&& granted == (before.meta >= SPAWN_UNIT)
        &&& after == (if granted {
            SpawnRate { meta: (before.meta - SPAWN_UNIT) as u128, ..before }
        } else {
            before
        })
    }

    fn update(&mut self, dt: u64) {
        assert(self.milli_per_second * dt <= u128::MAX) by (nonlinear_arith)
            requires
                self.milli_per_second <= u64::MAX,
                dt <= u64::MAX,
        ;
        let gained = self.milli_per_second as u128 * dt as u128;
        self.meta = self.meta.saturating_add(gained);
    }

    fn try_spawn(&mut self) -> (r: bool) {
        if self.meta >= SPAWN_UNIT {
            self.meta -= SPAWN_UNIT;
            proof {
                vstd::arithmetic::div_mod::lemma_div_plus_one(self.meta as int, SPAWN_UNIT as int);
            }
            assert(self.pending() < old(self).pending());
            true
        } else {
            false
        }
    }

    fn finished(&self) -> (r: bool) {
        false
    }

    /// Takes every whole spawn at once and keeps the fraction.
    fn spawn_count(&mut self) -> (r: usize)
        ensures
            r == old(self).meta / SPAWN_UNIT,
            *final(self) == (SpawnRate { meta: old(self).meta % SPAWN_UNIT, ..*old(self) }),
    {
        let result = self.meta / SPAWN_UNIT;
        self.meta = self.meta % SPAWN_UNIT;
        result as usize
    }
}

/// The sum of a sequence of time steps, in nanoseconds.
pub open spec fn total_time(dts: Seq<u64>) -> nat
    decreases dts.len(),
{
    if dts.len() == 0 {
        0
    } else {
        (dts[0] + total_time(dts.drop_first())) as nat
    }
}

/// The controller after a run of ticks of `dts`, each an `update` followed by a
/// `spawn_count`, and the number of spawns the run released.
pub open spec fn drain_run(rate: SpawnRate, dts: Seq<u64>) -> (SpawnRate, nat)
    decreases dts.len(),
{
    if dts.len() == 0 {
        (rate, 0)
    } else {
        let updated = rate.updated(dts[0]);
        let drained = SpawnRate { meta: updated.meta % SPAWN_UNIT, ..updated };
        let (last, spawned) = drain_run(drained, dts.drop_first());
        (last, (spawned + updated.meta / SPAWN_UNIT) as nat)
    }
}

proof fn lemma_drain_run_conserves(rate: SpawnRate, dts: Seq<u64>)
    requires
        rate.meta + rate.milli_per_second * total_time(dts) <= u128::MAX,
    ensures
        drain_run(rate, dts).1 * SPAWN_UNIT + drain_run(rate, dts).0.meta == rate.meta
            + rate.milli_per_second * total_time(dts),
        dts.len() > 0 ==> drain_run(rate, dts).0.meta < SPAWN_UNIT,
        drain_run(rate, dts).0.milli_per_second == rate.milli_per_second,
    decreases dts.len(),
{
    if dts.len() > 0 {
        let r = rate.milli_per_second as int;
        let d0 = dts[0] as int;
        let rest = total_time(dts.drop_first()) as int;
        assert(r * (d0 + rest) == r * d0 + r * rest) by (nonlinear_arith);
        assert(r * d0 >= 0 && r * rest >= 0) by (nonlinear_arith)
            requires
                r >= 0,
                d0 >= 0,
                rest >= 0,
        ;
        let updated = rate.updated(dts[0]);
        assert(updated.meta == rate.meta + r * d0);
        let drained = SpawnRate { meta: updated.meta % SPAWN_UNIT, ..updated };
        vstd::arithmetic::div_mod::lemma_fundamental_div_mod(updated.meta as int, SPAWN_UNIT as int);
        lemma_drain_run_conserves(drained, dts.drop_first());
        let (last, spawned) = drain_run(drained, dts.drop_first());
        let q = updated.meta / SPAWN_UNIT;
        assert((spawned + q) * SPAWN_UNIT == spawned * SPAWN_UNIT + q * SPAWN_UNIT) by (nonlinear_arith);
        assert(total_time(dts) == d0 + rest);
        assert(drain_run(rate, dts) == (last, (spawned + q) as nat));
        assert(spawned * SPAWN_UNIT + last.meta == drained.meta + r * rest);
        assert(q * SPAWN_UNIT + drained.meta == updated.meta);
        if dts.len() == 1 {
            assert(dts.drop_first().len() == 0);
        }
    } else {
        assert(total_time(dts) == 0);
        assert(rate.milli_per_second * 0 == 0);
    }
}

/// Over any run of ticks, updating a rate and then draining every whole spawn releases
/// exactly the whole spawns accumulated, `(meta + rate * time) / SPAWN_UNIT`, and keeps
/// the fraction below one spawn: nothing leaks and nothing is counted twice. (Runs whose
/// accumulation would exceed `u128::MAX`, where `update` saturates, are left out.)
pub proof fn lemma_drained_total(rate: SpawnRate, dts: Seq<u64>)
    requires
        rate.meta + rate.milli_per_second * total_time(dts) <= u128::MAX,
    ensures
        dts.len() > 0 ==> drain_run(rate, dts).1 == (rate.meta + rate.milli_per_second
            * total_time(dts)) / SPAWN_UNIT as int,
        dts.len() > 0 ==> drain_run(rate, dts).0.meta == (rate.meta + rate.milli_per_second
            * total_time(dts)) % SPAWN_UNIT as int,
        dts.len() > 0 ==> drain_run(rate, dts).0.meta < SPAWN_UNIT,
{
    lemma_drain_run_conserves(rate, dts);
    if dts.len() > 0 {
        let (last, spawned) = drain_run(rate, dts);
        vstd::arithmetic::div_mod::lemma_fundamental_div_mod_converse(
            rate.meta + rate.milli_per_second * total_time(dts),
            SPAWN_UNIT as int,
            spawned as int,
            last.meta as int,
        );
    }
}

/// Calling `try_spawn` until it refuses drains a rate exactly as `spawn_count` does: a run
/// of states in which every call but the last granted a spawn grants `meta / SPAWN_UNIT`
/// spawns and leaves `meta % SPAWN_UNIT`.
pub proof fn lemma_try_spawn_drains(states: Seq<SpawnRate>)
    requires
        states.len() >= 2,
        forall|i: int|
            0 <= i < states.len() - 2 ==> #[trigger] SpawnRate::spawn_step(
                states[i],
                states[i + 1],
                true,
            ),
        SpawnRate::spawn_step(states[states.len() - 2], states[states.len() - 1], false),
    ensures
        states.len() - 2 == states[0].meta / SPAWN_UNIT,
        states.last().meta == states[0].meta % SPAWN_UNIT,
        states.last().milli_per_second == states[0].milli_per_second,
{
    let k = states.len() - 2;
    assert forall|i: int| 0 <= i <= k implies #[trigger] states[i].meta == states[0].meta - i
        * SPAWN_UNIT && states[i].milli_per_second == states[0].milli_per_second by {
        lemma_granted_prefix(states, i);
    }
    vstd::arithmetic::div_mod::lemma_fundamental_div_mod_converse(
        states[0].meta as int,
        SPAWN_UNIT as int,
        k,
        states[k].meta as int,
    );
}

proof fn lemma_granted_prefix(states: Seq<SpawnRate>, i: int)
    requires
        states.len() >= 2,
        0 <= i <= states.len() - 2,
        forall|j: int|
            0 <= j < states.len() - 2 ==> #[trigger] SpawnRate::spawn_step(
                states[j],
                states[j + 1],
                true,
            ),
    ensures
        states[i].meta == states[0].meta - i * SPAWN_UNIT,
        states[i].milli_per_second == states[0].milli_per_second,
    decreases i,
{
    if i > 0 {
        lemma_granted_prefix(states, i - 1);
        let j = i - 1;
        assert(SpawnRate::spawn_step(states[j], states[j + 1], true));
    }
}

/// Spawns `x` projectiles once, then finishes.
#[derive(Debug)]
pub struct Burst(pub usize);

impl ProjectileSpawning for Burst {
    open spec fn well_formed(&self) -> bool {
        true
    }

    open spec fn pending(&self) -> nat {
        self.0 as nat
    }

    open spec fn is_finished(&self) -> bool {
        self.0 == 0
    }

    open spec fn update_step(before: Self, after: Self, dt: u64) -> bool {
        after.0 == before.0
    }

    open spec fn spawn_step(before: Self, after: Self, granted: bool) -> bool {
        &&& granted == (before.0 > 0)
        &&& after.0 == (if granted { before.0 - 1 } else { before.0 as int })
    }

    fn update(&mut self, dt: u64) {
    }

    fn try_spawn(&mut self) -> (r: bool) {
        if self.0 > 0 {
            self.0 -= 1;
            assert(self.pending() < old(self).pending());
            true
        } else {
            false
        }
    }

    fn finished(&self) -> (r: bool) {
        self.0 == 0
    }
}

/// Limits the number of projectiles spawned.
#[derive(Debug)]
pub struct Limit<T: ProjectileSpawning> {
    pub base: T,
    pub count: usize,
}

impl<T: ProjectileSpawning> ProjectileSpawning for Limit<T> {
    open spec fn well_formed(&self) -> bool {
        self.base.well_formed()
    }

    open spec fn pending(&self) -> nat {
        self.base.pending()
    }

    open spec fn is_finished(&self) -> bool {
        self.count == 0 || self.base.is_finished()
    }

    open spec fn update_step(before: Self, after: Self, dt: u64) -> bool {
        T::update_step(before.base, after.base, dt) && after.count == before.count
    }

    open spec fn spawn_step(before: Self, after: Self, granted: bool) -> bool {
        if before.count == 0 {
            !granted && after == before
        } else {
            &&& T::spawn_step(before.base, after.base, granted)
            &&& after.count == (if granted { before.count - 1 } else { before.count as int })
        }
    }

    fn update(&mut self, dt: u64) {
        self.base.update(dt);
    }

    fn try_spawn(&mut self) -> (r: bool) {
        if self.count > 0 && self.base.try_spawn() {
            self.count -= 1;
            assert(self.pending() < old(self).pending());
            return true;
        }
        assert(self.pending() <= old(self).pending());
        false
    }

    fn finished(&self) -> (r: bool) {
        self.count == 0 || self.base.finished()
    }
}

/// Spawns projectiles in bursts of a random size in `min..=max`.
///
/// `current` is what is left of the burst in progress.
#[derive(Debug)]
pub struct RandomBursts<T: ProjectileSpawning> {
    pub base: T,
    pub min: usize,
    pub max: usize,
    pub current: usize,
    pub rng: fastrand::Rng,
}

impl<T: ProjectileSpawning> ProjectileSpawning for RandomBursts<T> {
    open spec fn well_formed(&self) -> bool {
        self.min <= self.max && self.base.well_formed()
    }

    open spec fn pending(&self) -> nat {
        (self.current + self.max * self.base.pending()) as nat
    }

    open spec fn is_finished(&self) -> bool {
        self.base.is_finished()
    }

    open spec fn update_step(before: Self, after: Self, dt: u64) -> bool {
        &&& T::update_step(before.base, after.base, dt)
        &&& after.min == before.min
        &&& after.max == before.max
        &&& after.current == before.current
    }

    /// A burst in progress continues without consulting the base controller; otherwise a
    /// spawn of the base starts a burst of a size in `min..=max`, of which this call is the
    /// first item (a size of zero grants nothing).
    open spec fn spawn_step(before: Self, after: Self, granted: bool) -> bool {
        &&& after.min == before.min
        &&& after.max == before.max
        &&& if before.current > 0 {
            &&& granted
            &&& after.current == before.current - 1
            &&& after.base == before.base
        } else {
            ||| T::spawn_step(before.base, after.base, false) && !granted && after.current == 0
            ||| T::spawn_step(before.base, after.base, true) && if granted {
                before.min <= after.current + 1 <= before.max
            } else {
                before.min == 0 && after.current == 0
            }
        }
    }

    fn update(&mut self, dt: u64) {
        self.base.update(dt);
    }

    fn try_spawn(&mut self) -> (r: bool) {
        if self.current > 0 {
            self.current -= 1;
            assert(self.pending() < old(self).pending());
            true
        } else if self.base.try_spawn() {
            let spawns = random_between(&mut self.rng, self.min, self.max);
            proof {
                let (m, p0, p1) = (self.max as int, old(self).base.pending() as int, self.base.pending() as int);
                assert(m * p1 <= m * p0 - m) by (nonlinear_arith)
                    requires
                        m >= 0,
                        0 <= p1 < p0,
                ;
            }
            if spawns == 0 {
                assert(self.pending() <= old(self).pending());
                false
            } else {
                self.current = spawns - 1;
                assert(self.pending() < old(self).pending());
                true
            }
        } else {
            proof {
                let (m, p0, p1) = (self.max as int, old(self).base.pending() as int, self.base.pending() as int);
                assert(m * p1 <= m * p0) by (nonlinear_arith)
                    requires
                        m >= 0,
                        0 <= p1 <= p0,
                ;
            }
            assert(self.pending() <= old(self).pending());
            false
        }
    }

    fn finished(&self) -> (r: bool) {
        self.base.finished()
    }
}

proof fn lemma_single_trigger_state(states: Seq<RandomBursts<Burst>>, granted: Seq<bool>, i: int)
    requires
        states.len() == granted.len() + 1,
        states[0].base.0 == 1,
        states[0].min == states[0].max,
        states[0].max >= 1,
        states[0].current == 0,
        forall|j: int|
            0 <= j < granted.len() ==> #[trigger] RandomBursts::<Burst>::spawn_step(
                states[j],
                states[j + 1],
                granted[j],
            ),
        0 <= i <= granted.len(),
    ensures
        states[i].min == states[0].min,
        states[i].max == states[0].max,
        i == 0 ==> states[i].base.0 == 1 && states[i].current == 0,
        1 <= i <= states[0].max ==> states[i].base.0 == 0 && states[i].current == states[0].max - i,
        i > states[0].max ==> states[i].base.0 == 0 && states[i].current == 0,
        i > 0 ==> granted[i - 1] == (i - 1 < states[0].max),
    decreases i,
{
    if i > 0 {
        let j = i - 1;
        lemma_single_trigger_state(states, granted, j);
        assert(RandomBursts::<Burst>::spawn_step(states[j], states[j + 1], granted[j]));
    }
}

/// A burst spawner of `n >= 1` items per trigger, over a base that triggers exactly once,
/// grants the first `n` calls of `try_spawn` and none after: one trigger gives one burst
/// of `n`, not one burst per call or per tick.
pub proof fn lemma_single_trigger_burst(states: Seq<RandomBursts<Burst>>, granted: Seq<bool>)
    requires
        states.len() == granted.len() + 1,
        states[0].base.0 == 1,
        states[0].min == states[0].max,
        states[0].max >= 1,
        states[0].current == 0,
        forall|i: int|
            0 <= i < granted.len() ==> #[trigger] RandomBursts::<Burst>::spawn_step(
                states[i],
                states[i + 1],
                granted[i],
            ),
    ensures
        forall|i: int| 0 <= i < granted.len() ==> granted[i] == (i < states[0].max),
{
    assert forall|i: int| 0 <= i < granted.len() implies granted[i] == (i < states[0].max) by {
        lemma_single_trigger_state(states, granted, i + 1);
    }
}

} // verus!
