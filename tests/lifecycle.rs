use bevy_javelin::lifecycle::{
    chain_complete, command_propagates, done_action, spawner_next, ExpiryState, InstanceState,
    ProjectileSpace, ProjectileStep, SpawnerAction, SpawnerEvent, TickAction,
};
use bevy_javelin::spawning::{ProjectileSpawning, SpawnRate};
use bevy_javelin::token::{group_finished, ProjectileRc};

const SECOND: u64 = 1_000_000_000;

#[test]
fn release_twice_equals_once() {
    let mut once = ProjectileRc::new();
    once.release();
    let mut twice = ProjectileRc::new();
    twice.release();
    twice.release();
    assert!(once.should_drop());
    assert!(twice.should_drop());
}

#[test]
fn owned_token_never_drops() {
    let mut token = ProjectileRc::new();
    assert!(!token.should_drop());
}

#[test]
fn should_drop_flips_on_last_release() {
    for order in [[0usize, 1, 2, 3], [3, 1, 0, 2], [2, 3, 1, 0]] {
        let mut root = ProjectileRc::new();
        let mut children: Vec<ProjectileRc> = (0..4).map(|_| root.clone()).collect();
        root.release();
        let mut flips = 0;
        for (k, &i) in order.iter().enumerate() {
            assert!(!root.should_drop());
            children[i].release();
            if root.should_drop() {
                flips += 1;
                assert_eq!(k, order.len() - 1);
            }
        }
        assert_eq!(flips, 1);
        assert!(children.iter_mut().all(|c| c.should_drop()));
    }
}

#[test]
fn released_parent_clone_stays_released() {
    let mut root = ProjectileRc::new();
    let mut child = root.clone();
    root.release();
    let mut grandchild = child.clone();
    child.release();
    let mut late = child.clone();
    assert!(!late.should_drop());
    grandchild.release();
    assert!(late.should_drop());
    assert!(root.should_drop());
}

#[test]
fn expire_hook_runs_once() {
    // duration of one second, ticks of a tenth of a second, ten ticks past expiry
    let duration = SECOND;
    let mut state = ExpiryState::new();
    let mut lifetime = 0u64;
    let mut expired_calls = 0;
    let mut updates = 0;
    for _ in 0..20 {
        lifetime += SECOND / 10;
        match state.step(lifetime > duration) {
            ProjectileStep::Expire => expired_calls += 1,
            ProjectileStep::Advance => updates += 1,
            ProjectileStep::Idle => {}
        }
    }
    assert_eq!(expired_calls, 1);
    assert_eq!(updates, 10);
    assert!(state.is_done(None));
}

#[test]
fn projectile_done_waits_for_spawner() {
    let mut state = ExpiryState::new();
    assert!(!state.is_done(None));
    assert_eq!(state.step(true), ProjectileStep::Expire);
    assert_eq!(state.step(true), ProjectileStep::Idle);
    assert!(!state.is_done(Some(false)));
    assert!(state.is_done(Some(true)));
    assert!(state.is_done(None));
}

#[test]
fn chain_complete_needs_both() {
    for tick in 0..12 {
        let a = tick >= 5;
        let b = tick >= 8;
        assert_eq!(chain_complete(&vec![a, b]), tick >= 8);
    }
    assert!(chain_complete(&vec![]));
    assert!(!chain_complete(&vec![true, true, false]));
}

#[test]
fn live_instance_ages_and_runs() {
    let mut state = InstanceState::new_root();
    assert_eq!(state.begin_tick(SECOND / 2), TickAction::Run);
    assert_eq!(state.lifetime, SECOND / 2);
    state.finish_tick(false);
    assert!(!state.done);
    state.lifetime = u64::MAX - 1;
    assert_eq!(state.begin_tick(5), TickAction::Run);
    assert_eq!(state.lifetime, u64::MAX);
}

#[test]
fn end_to_end_rate_four_for_one_second() {
    let mut root = InstanceState::new_root();
    let mut rate = SpawnRate::new(4000);
    let mut children = Vec::new();
    let dt = 16_666_667u64;
    for tick in 0..60 {
        assert_eq!(root.begin_tick(dt), TickAction::Run);
        rate.update(dt);
        while rate.try_spawn() {
            children.push(InstanceState::new_child(&root.rc));
        }
        root.finish_tick(tick == 59);
    }
    assert_eq!(children.len(), 4);
    assert!(root.done);
    assert!(children.iter().all(|c| !c.root && !c.done && c.lifetime == 0));
    // The root stays while its children live.
    assert_eq!(root.begin_tick(dt), TickAction::Skip);
    for child in children.iter_mut() {
        assert_eq!(child.begin_tick(dt), TickAction::Run);
        child.finish_tick(true);
        assert_eq!(child.begin_tick(dt), TickAction::Skip);
    }
    assert_eq!(root.begin_tick(dt), TickAction::Despawn);
}

#[test]
fn finished_child_is_never_removed_by_driver() {
    let root = InstanceState::new_root();
    let mut child = InstanceState::new_child(&root.rc);
    drop(root);
    child.finish_tick(true);
    assert_eq!(child.begin_tick(SECOND), TickAction::Skip);
}

#[test]
fn child_of_released_parent_starts_released() {
    let mut parent = InstanceState::new_root();
    parent.finish_tick(true);
    let mut child = InstanceState::new_child(&parent.rc);
    // The child's token is released like its parent's, so the group is already finished.
    assert!(child.rc.should_drop());
    assert_eq!(parent.begin_tick(SECOND), TickAction::Despawn);
    assert_eq!(child.begin_tick(SECOND), TickAction::Run);
}

#[test]
fn expired_projectile_never_advances_again() {
    let mut state = ExpiryState::new();
    assert_eq!(state.step(false), ProjectileStep::Advance);
    assert_eq!(state.step(true), ProjectileStep::Expire);
    assert_eq!(state.step(false), ProjectileStep::Idle);
    assert_eq!(state.step(true), ProjectileStep::Idle);
    assert!(state.expired);
}

#[test]
fn group_finished_at_one_owner() {
    assert!(group_finished(1));
    assert!(!group_finished(2));
    assert!(!group_finished(5));
}

#[test]
fn done_action_despawns_finished_roots_only() {
    assert_eq!(done_action(true, true), TickAction::Despawn);
    assert_eq!(done_action(true, false), TickAction::Skip);
    assert_eq!(done_action(false, true), TickAction::Skip);
    assert_eq!(done_action(false, false), TickAction::Skip);
}

#[test]
fn spawner_steps() {
    let w = ProjectileSpace::World;
    let l = ProjectileSpace::Local;
    assert_eq!(spawner_next(SpawnerEvent::Checked(true), w), SpawnerAction::VisitExtension);
    assert_eq!(spawner_next(SpawnerEvent::Checked(false), w), SpawnerAction::Update);
    assert_eq!(spawner_next(SpawnerEvent::Updated, w), SpawnerAction::Poll);
    assert_eq!(spawner_next(SpawnerEvent::Polled(true), l), SpawnerAction::SpawnChild(l));
    assert_eq!(spawner_next(SpawnerEvent::Polled(true), w), SpawnerAction::SpawnChild(w));
    assert_eq!(spawner_next(SpawnerEvent::ChildSpawned, w), SpawnerAction::Poll);
    assert_eq!(spawner_next(SpawnerEvent::Polled(false), w), SpawnerAction::VisitExtension);
}

#[test]
fn spawner_run_spawns_until_refused() {
    // A rate with three whole spawns pending, driven through the spawner steps.
    let mut rate = SpawnRate::new(3000);
    let mut spawned = 0;
    let mut action = spawner_next(SpawnerEvent::Checked(rate.finished()), ProjectileSpace::Local);
    loop {
        let event = match action {
            SpawnerAction::Update => {
                rate.update(SECOND);
                SpawnerEvent::Updated
            }
            SpawnerAction::Poll => SpawnerEvent::Polled(rate.try_spawn()),
            SpawnerAction::SpawnChild(_) => {
                spawned += 1;
                SpawnerEvent::ChildSpawned
            }
            SpawnerAction::VisitExtension => break,
        };
        action = spawner_next(event, ProjectileSpace::Local);
    }
    assert_eq!(spawned, 3);
}

#[test]
fn command_propagation() {
    assert!(command_propagates(true, true));
    assert!(!command_propagates(true, false));
    assert!(!command_propagates(false, true));
}
