//! The decisions that advance projectiles and spawners once per tick.
use vstd::prelude::*;

use crate::token::ProjectileRc;

verus! {

/// Local space or world space.
#[derive(Debug, Clone, Copy, PartialEq, Eq, Structural)]
pub enum ProjectileSpace {
    Local,
    World,
}

/// What a projectile does on one tick.
#[derive(Debug, Clone, Copy, PartialEq, Eq, Structural)]
pub enum ProjectileStep {
    /// Still alive: compute its factor and run its update.
    Advance,
    /// Expired for the first time: run its expiry hook.
    Expire,
    /// Expired earlier: nothing more to do for the projectile itself.
    Idle,
}

/// Whether a projectile has run its expiry hook.
#[derive(Debug, Clone, Copy, PartialEq, Eq, Structural)]
pub struct ExpiryState {
    pub expired: bool,
}

/// The state and the step after a tick on which the projectile reported `is_expired`.
///
/// The machine only moves forward: alive, then expired with the hook pending (the
/// `Expire` step runs it), then expired with the hook done, which is final whatever
/// `is_expired` reports later.
pub open spec fn expiry_step(state: ExpiryState, is_expired: bool) -> (ExpiryState, ProjectileStep) {
    if state.expired {
        (state, ProjectileStep::Idle)
    } else if is_expired {
        (ExpiryState { expired: true }, ProjectileStep::Expire)
    } else {
        (state, ProjectileStep::Advance)
    }
}

impl ExpiryState {
    pub fn new() -> (r: ExpiryState)
        ensures
            !r.expired,
    {
        ExpiryState { expired: false }
    }

    /// Decides what the projectile does on this tick, given what `is_expired` reported.
    pub fn step(&mut self, is_expired: bool) -> (r: ProjectileStep)
        ensures
            (*final(self), r) == expiry_step(*old(self), is_expired),
    {
        if self.expired {
            ProjectileStep::Idle
        } else if is_expired {
            self.expired = true;
            ProjectileStep::Expire
        } else {
            ProjectileStep::Advance
        }
    }

    /// Whether the projectile is finished: it has expired, and the spawner it carries,
    /// if any, reported complete (`spawner_done` is `None` where it carries none).
    pub fn is_done(&self, spawner_done: Option<bool>) -> (r: bool)
        ensures
            r == (self.expired && spawner_done != Some(false)),
    {
        match spawner_done {
            Some(done) => done && self.expired,
            None => self.expired,
        }
    }
}

/// How many times the expiry hook runs over ticks that observed `observed`, from `state`.
pub open spec fn expire_calls(state: ExpiryState, observed: Seq<bool>) -> nat
    decreases observed.len(),
{
    if observed.len() == 0 {
        0
    } else {
        let (next, step) = expiry_step(state, observed[0]);
        (if step == ProjectileStep::Expire { 1nat } else { 0nat }) + expire_calls(
            next,
            observed.drop_first(),
        )
    }
}

proof fn lemma_no_expire_after_expired(observed: Seq<bool>)
    ensures
        expire_calls(ExpiryState { expired: true }, observed) == 0,
    decreases observed.len(),
{
    if observed.len() > 0 {
        lemma_no_expire_after_expired(observed.drop_first());
    }
}

/// The expiry hook of a fresh projectile runs exactly once over any run of ticks on which
/// `is_expired` was reported true at least once, however often it is reported true
/// afterwards, and never on a run where it was not.
pub proof fn lemma_expire_fires_once(observed: Seq<bool>)
    ensures
        expire_calls(ExpiryState { expired: false }, observed) == (if exists|i: int|
            0 <= i < observed.len() && observed[i] {
            1nat
        } else {
            0nat
        }),
    decreases observed.len(),
{
    if observed.len() > 0 {
        let rest = observed.drop_first();
        if observed[0] {
            lemma_no_expire_after_expired(rest);
        } else {
            lemma_expire_fires_once(rest);
            if exists|i: int| 0 <= i < rest.len() && rest[i] {
                let i = choose|i: int| 0 <= i < rest.len() && rest[i];
                assert(observed[i + 1]);
            }
            if exists|i: int| 0 <= i < observed.len() && observed[i] {
                let i = choose|i: int| 0 <= i < observed.len() && observed[i];
                assert(rest[i - 1]);
            }
        }
    }
}

/// Whether a chain of spawners is complete: every spawner of the chain, the first and
/// each extension after it, reports complete.
pub fn chain_complete(completes: &Vec<bool>) -> (r: bool)
    ensures
        r == (forall|i: int| 0 <= i < completes.len() ==> completes[i]),
{
    let mut i: usize = 0;
    while i < completes.len()
        invariant
            i <= completes.len(),
            forall|j: int| 0 <= j < i ==> completes[j],
        decreases completes.len() - i,
    {
        if !completes[i] {
            return false;
        }
        i += 1;
    }
    true
}

/// What a spawner reported last, during its part of a tick.
#[derive(Debug, Clone, Copy, PartialEq, Eq, Structural)]
pub enum SpawnerEvent {
    /// Its completeness was checked: `true` where it is complete.
    Checked(bool),
    /// Its timers were advanced.
    Updated,
    /// It was asked for a projectile: `true` where it gave one.
    Polled(bool),
    /// The projectile it gave was attached as a child.
    ChildSpawned,
}

/// What to do next with a spawner during its part of a tick.
#[derive(Debug, Clone, Copy, PartialEq, Eq, Structural)]
pub enum SpawnerAction {
    /// Advance its timers.
    Update,
    /// Ask it for the next projectile.
    Poll,
    /// Attach the projectile it gave as a child, related as the space says.
    SpawnChild(ProjectileSpace),
    /// Done with this spawner: go on to its extension, if it has one.
    VisitExtension,
}

/// One step of the spawner-update algorithm.
///
/// A complete spawner neither updates nor spawns. Otherwise it is updated once, then
/// polled until it gives nothing, each projectile it gives becoming a child in the
/// spawner's `space`. Either way the extension comes next.
pub fn spawner_next(event: SpawnerEvent, space: ProjectileSpace) -> (r: SpawnerAction)
    ensures
        event == SpawnerEvent::Checked(true) ==> r == SpawnerAction::VisitExtension,
        event == SpawnerEvent::Checked(false) ==> r == SpawnerAction::Update,
        event == SpawnerEvent::Updated ==> r == SpawnerAction::Poll,
        event == SpawnerEvent::Polled(true) ==> r == SpawnerAction::SpawnChild(space),
        event == SpawnerEvent::ChildSpawned ==> r == SpawnerAction::Poll,
        event == SpawnerEvent::Polled(false) ==> r == SpawnerAction::VisitExtension,
{
    match event {
        SpawnerEvent::Checked(complete) => if complete {
            SpawnerAction::VisitExtension
        } else {
            SpawnerAction::Update
        },
        SpawnerEvent::Updated => SpawnerAction::Poll,
        SpawnerEvent::Polled(gave) => if gave {
            SpawnerAction::SpawnChild(space)
        } else {
            SpawnerAction::VisitExtension
        },
        SpawnerEvent::ChildSpawned => SpawnerAction::Poll,
    }
}

/// Whether a command goes on to an instance's children: only where the instance was
/// found and its handler asked to propagate.
pub fn command_propagates(found: bool, propagate: bool) -> (r: bool)
    ensures
        r == (found && propagate),
{
    found && propagate
}

/// What the update driver does with an instance on one tick.
#[derive(Debug, Clone, Copy, PartialEq, Eq, Structural)]
pub enum TickAction {
    /// Finished root whose whole group is finished: remove the entity.
    Despawn,
    /// Finished, and not yet removable.
    Skip,
    /// Live: run the instance's update.
    Run,
}

/// The action `done_action` decides.
pub open spec fn finished_action(root: bool, group_finished: bool) -> TickAction {
    if root && group_finished {
        TickAction::Despawn
    } else {
        TickAction::Skip
    }
}

/// What the update driver does with a finished instance: remove it where it is a root
/// and its whole group is finished, otherwise leave it.
pub fn done_action(root: bool, group_finished: bool) -> (r: TickAction)
    ensures
        r == finished_action(root, group_finished),
{
    if root && group_finished {
        TickAction::Despawn
    } else {
        TickAction::Skip
    }
}

/// The bookkeeping the update driver keeps for one projectile or spawner instance.
///
/// `lifetime` counts the nanoseconds the instance has been live; `done` is set once its
/// update reported completion, and `root` marks instances created directly rather than
/// spawned by another instance.
#[derive(Debug, Clone)]
pub struct InstanceState {
    pub lifetime: u64,
    pub rc: ProjectileRc,
    pub done: bool,
    pub root: bool,
}

/// `a + b`, or the largest `u64` where the sum does not fit.
pub open spec fn saturating_add_u64(a: u64, b: u64) -> u64 {
    if a + b > u64::MAX {
        u64::MAX
    } else {
        (a + b) as u64
    }
}

impl InstanceState {
    /// A finished instance no longer keeps its group alive.
    pub open spec fn well_formed(&self) -> bool {
        self.done ==> !self.rc.is_owned()
    }

    /// A root instance, with a token of a group of its own.
    pub fn new_root() -> (r: InstanceState)
        ensures
            r.lifetime == 0,
            !r.done,
            r.root,
            r.rc.is_owned(),
            r.well_formed(),
    {
        InstanceState { lifetime: 0, rc: ProjectileRc::new(), done: false, root: true }
    }

    /// An instance spawned under the instance that holds `reference`, sharing its group.
    pub fn new_child(reference: &ProjectileRc) -> (r: InstanceState)
        ensures
            r.lifetime == 0,
            r.rc == *reference,
            !r.done,
            !r.root,
            r.well_formed(),
    {
        InstanceState { lifetime: 0, rc: reference.clone(), done: false, root: false }
    }

    /// Starts a tick of `dt` nanoseconds.
    ///
    /// What happens to a finished instance is decided by [`done_action`], from whether it
    /// is a root and, for a root, whether its token reports the group finished.
    ///
    /// A live instance ages by `dt` and is run. A finished one is left as it is, and is
    /// removed only where it is a root and its token reports the whole group finished.
    pub fn begin_tick(&mut self, dt: u64) -> (r: TickAction)
        ensures
            !old(self).done ==> r == TickAction::Run && *final(self) == (InstanceState {
                lifetime: saturating_add_u64(old(self).lifetime, dt),
                ..*old(self)
            }),
            old(self).done ==> *final(self) == *old(self) && r != TickAction::Run,
            old(self).done && !old(self).root ==> r == TickAction::Skip,
            old(self).done && old(self).rc.is_owned() ==> r == TickAction::Skip,
            old(self).done ==> exists|group_finished: bool|
                r == finished_action(old(self).root, group_finished),
    {
        if self.done {
            let group_finished = self.root && self.rc.should_drop();
            done_action(self.root, group_finished)
        } else {
            self.lifetime = self.lifetime.saturating_add(dt);
            TickAction::Run
        }
    }

    /// Ends the tick: where the update reported `finished`, the instance is done and
    /// releases its token.
    pub fn finish_tick(&mut self, finished: bool)
        ensures
            finished ==> *final(self) == (InstanceState {
                done: true,
                rc: old(self).rc.released(),
                ..*old(self)
            }),
            !finished ==> *final(self) == *old(self),
            old(self).well_formed() ==> final(self).well_formed(),
    {
        if finished {
            self.done = true;
            self.rc.release();
        }
    }
}

} // verus!
