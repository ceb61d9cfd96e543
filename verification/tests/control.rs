use audiocloud::allocation::{
    allocate_instances, plan_create_task, plan_set_task_time, AllocationError,
    InstanceAllocationRequest, TaskClaim, TaskPlanError,
};
use audiocloud::instance_control::{
    connection_state_of, cooling_down_ms, idle_ms, spec_change_actions, SpecChangeActions, may_respawn, play_control_lapsed, power_control_lapsed,
    power_set_success, remaining_media_ms, reported_connection_state, settle_power,
    termination_action, update_power_state, warming_up_ms, DesiredPower,
    InstanceConnectionState, PowerState, PowerUpdate, TerminationAction, power_step, persisted_after,
    PowerStep, RunningDriver, DriverState, request_termination, driver_running, respawn_step,
    connection_changed,
};
use audiocloud::task_schedule::{cleanup_stale_tasks, tasks_to_start, update_tasks, TaskSlot, TaskWindow};
use audiocloud::time::Timestamp;

fn ts(secs: i64) -> Timestamp {
    Timestamp::from_parts(secs, 0).unwrap()
}

fn task(id: &str, from: i64, to: i64, instances: &[&str]) -> TaskClaim {
    TaskClaim {
        id: id.to_string(),
        from: ts(from),
        to: ts(to),
        instances: instances.iter().map(|s| s.to_string()).collect(),
    }
}

fn fixed(alloc: &str, inst: &str) -> (String, InstanceAllocationRequest) {
    (alloc.to_string(), InstanceAllocationRequest::Fixed { instance_id: inst.to_string() })
}

fn names(v: &[&str]) -> Vec<String> {
    v.iter().map(|s| s.to_string()).collect()
}

#[test]
fn allocates_free_instances_in_request_order() {
    let tasks = vec![task("t1", 0, 10, &["a"])];
    let instances = names(&["a", "b", "c"]);
    let requests = vec![fixed("x", "c"), fixed("y", "b")];
    let r = allocate_instances(ts(20), ts(30), &tasks, &instances, &requests, &None);
    assert_eq!(
        r,
        Ok(vec![("x".to_string(), "c".to_string()), ("y".to_string(), "b".to_string())])
    );
}

#[test]
fn overlapping_task_blocks_instance() {
    let tasks = vec![task("t1", 0, 10, &["a"])];
    let instances = names(&["a", "b"]);
    let requests = vec![fixed("x", "b"), fixed("y", "a")];
    let r = allocate_instances(ts(5), ts(15), &tasks, &instances, &requests, &None);
    assert_eq!(r, Err(AllocationError::InstanceNotAvailable { instance_id: "a".to_string() }));
}

#[test]
fn touching_windows_do_not_overlap() {
    let tasks = vec![task("t1", 0, 10, &["a"]), task("t2", 20, 30, &["a"])];
    let instances = names(&["a"]);
    let r = allocate_instances(ts(10), ts(20), &tasks, &instances, &vec![fixed("x", "a")], &None);
    assert_eq!(r, Ok(vec![("x".to_string(), "a".to_string())]));
}

#[test]
fn ignored_task_does_not_block() {
    let tasks = vec![task("t1", 0, 10, &["a"])];
    let instances = names(&["a"]);
    let requests = vec![fixed("x", "a")];
    let r = allocate_instances(ts(0), ts(10), &tasks, &instances, &requests, &Some("t1".to_string()));
    assert_eq!(r, Ok(vec![("x".to_string(), "a".to_string())]));
    let r = allocate_instances(ts(0), ts(10), &tasks, &instances, &requests, &Some("t2".to_string()));
    assert_eq!(r, Err(AllocationError::InstanceNotAvailable { instance_id: "a".to_string() }));
}

#[test]
fn unknown_instance_and_dynamic_requests_fail() {
    let instances = names(&["a"]);
    let r = allocate_instances(ts(0), ts(1), &vec![], &instances, &vec![fixed("x", "z")], &None);
    assert_eq!(r, Err(AllocationError::InstanceNotAvailable { instance_id: "z".to_string() }));
    let requests = vec![(
        "x".to_string(),
        InstanceAllocationRequest::Dynamic { model_id: "m".to_string() },
    )];
    let r = allocate_instances(ts(0), ts(1), &vec![], &instances, &requests, &None);
    assert_eq!(r, Err(AllocationError::NoInstanceForModel { model_id: "m".to_string() }));
    let r = allocate_instances(ts(0), ts(1), &vec![], &instances, &vec![], &None);
    assert_eq!(r, Ok(vec![]));
}

#[test]
fn power_defaults() {
    assert_eq!(idle_ms(None), 300_000);
    assert_eq!(idle_ms(Some(7)), 7);
    assert_eq!(cooling_down_ms(None), 5_000);
    assert_eq!(cooling_down_ms(Some(1)), 1);
    assert_eq!(warming_up_ms(None), 15_000);
    assert_eq!(warming_up_ms(Some(2)), 2);
}

#[test]
fn control_lapses() {
    assert!(power_control_lapsed(ts(100), 1_000, ts(100)));
    assert!(!power_control_lapsed(ts(100), 1_000, ts(101)));
    assert!(power_control_lapsed(ts(100), 1_001, ts(101)));
    assert!(play_control_lapsed(ts(11), ts(10)));
    assert!(!play_control_lapsed(ts(10), ts(10)));
}

#[test]
fn power_timers_settle() {
    assert_eq!(settle_power(PowerState::CoolingDown, 5_001, 5_000, 15_000), PowerState::Off);
    assert_eq!(settle_power(PowerState::CoolingDown, 5_000, 5_000, 15_000), PowerState::CoolingDown);
    assert_eq!(settle_power(PowerState::WarmingUp, 15_001, 5_000, 15_000), PowerState::On);
    assert_eq!(settle_power(PowerState::WarmingUp, 15_000, 5_000, 15_000), PowerState::WarmingUp);
    assert_eq!(settle_power(PowerState::On, 0, 5_000, 15_000), PowerState::On);
    assert_eq!(power_set_success(DesiredPower::Off), PowerState::CoolingDown);
    assert_eq!(power_set_success(DesiredPower::On), PowerState::WarmingUp);
}

#[test]
fn power_update_turns_lapsed_request_off() {
    let u = update_power_state(ts(100), Some(ts(200)), 300_000, DesiredPower::On, PowerState::WarmingUp, 20_000, 5_000, 15_000);
    assert_eq!(u, PowerUpdate { desired: DesiredPower::Off, actual: PowerState::On });
    let u = update_power_state(ts(100), Some(ts(1_000)), 300_000, DesiredPower::On, PowerState::Off, 0, 5_000, 15_000);
    assert_eq!(u, PowerUpdate { desired: DesiredPower::On, actual: PowerState::Off });
    let u = update_power_state(ts(100), None, u64::MAX, DesiredPower::On, PowerState::CoolingDown, 6_000, 5_000, 15_000);
    assert_eq!(u, PowerUpdate { desired: DesiredPower::On, actual: PowerState::Off });
}

#[test]
fn remaining_media() {
    assert_eq!(remaining_media_ms(10_000, 2_500), 7_500);
    assert_eq!(remaining_media_ms(10_000, 10_000), 0);
}

#[test]
fn driver_termination() {
    assert_eq!(termination_action(false, Some(3)), TerminationAction::Keep);
    assert_eq!(termination_action(true, None), TerminationAction::Keep);
    assert_eq!(termination_action(true, Some(0)), TerminationAction::RequestTerminate { requested: 1 });
    assert_eq!(termination_action(true, Some(10)), TerminationAction::RequestTerminate { requested: 11 });
    assert_eq!(termination_action(true, Some(11)), TerminationAction::Abort);
}

#[test]
fn driver_respawn_and_connection() {
    assert!(may_respawn(true, false, None));
    assert!(!may_respawn(false, false, Some(true)));
    assert!(!may_respawn(true, true, None));
    assert!(!may_respawn(true, true, Some(false)));
    assert!(may_respawn(true, true, Some(true)));
    assert_eq!(reported_connection_state(None), InstanceConnectionState::Disconnected);
    assert_eq!(reported_connection_state(Some((true, true))), InstanceConnectionState::Connected);
    assert_eq!(reported_connection_state(Some((false, true))), InstanceConnectionState::Disconnected);
    assert_eq!(reported_connection_state(Some((true, false))), InstanceConnectionState::Disconnected);
}

fn slot(id: &str, window: Option<(i64, i64, &str)>, run_finished: Option<bool>) -> TaskSlot {
    TaskSlot {
        id: id.to_string(),
        window: window.map(|(from, to, engine)| TaskWindow {
            from: ts(from),
            to: ts(to),
            engine: engine.to_string(),
        }),
        run_finished,
    }
}

#[test]
fn stale_tasks_are_dropped_in_order() {
    let tasks = vec![
        slot("a", Some((0, 10, "e")), None),
        slot("b", None, None),
        slot("c", Some((0, 5, "e")), None),
        slot("d", Some((6, 20, "e")), Some(true)),
    ];
    let kept = cleanup_stale_tasks(tasks, ts(5));
    let ids: Vec<String> = kept.iter().map(|s| s.id.clone()).collect();
    assert_eq!(ids, vec!["a".to_string(), "d".to_string()]);
}

#[test]
fn tasks_started_when_due_on_this_engine() {
    let tasks = vec![
        slot("a", Some((0, 10, "e")), None),
        slot("b", Some((0, 10, "other")), None),
        slot("c", Some((6, 10, "e")), None),
        slot("d", Some((5, 10, "e")), Some(false)),
        slot("e", Some((5, 10, "e")), Some(true)),
        slot("f", None, None),
    ];
    assert_eq!(tasks_to_start(&tasks, &"e".to_string(), ts(5)), vec![0, 4]);
    let (kept, positions) = update_tasks(tasks, &"e".to_string(), ts(10));
    assert_eq!(kept.len(), 0);
    assert!(positions.is_empty());
}

#[test]
fn spec_changes() {
    assert_eq!(
        spec_change_actions(None, true),
        SpecChangeActions { unsubscribe_events: true, subscribe_events: false, load_power_state: false, load_play_state: false }
    );
    assert_eq!(
        spec_change_actions(Some((true, false)), false),
        SpecChangeActions { unsubscribe_events: false, subscribe_events: true, load_power_state: false, load_play_state: true }
    );
    assert_eq!(
        spec_change_actions(Some((true, true)), true),
        SpecChangeActions { unsubscribe_events: false, subscribe_events: false, load_power_state: true, load_play_state: true }
    );
    assert_eq!(connection_state_of(true), InstanceConnectionState::Connected);
    assert_eq!(connection_state_of(false), InstanceConnectionState::Disconnected);
}

#[test]
fn idle_times_above_i64_max_count_negative() {
    assert!(power_control_lapsed(ts(100), u64::MAX, ts(99)));
    assert!(!power_control_lapsed(ts(100), u64::MAX, ts(100)));
}

#[test]
fn creating_and_moving_tasks() {
    let tasks = vec![task("t1", 0, 10, &["a"]), task("t2", 20, 30, &["b"])];
    let instances = names(&["a", "b"]);
    let requests = vec![fixed("x", "a")];
    assert_eq!(
        plan_create_task(true, ts(40), ts(50), &tasks, &instances, &requests),
        Err(TaskPlanError::AlreadyExists)
    );
    assert_eq!(
        plan_create_task(false, ts(5), ts(15), &tasks, &instances, &requests),
        Err(TaskPlanError::Allocation(AllocationError::InstanceNotAvailable { instance_id: "a".to_string() }))
    );
    assert_eq!(
        plan_create_task(false, ts(40), ts(50), &tasks, &instances, &requests),
        Ok(vec![("x".to_string(), "a".to_string())])
    );
    let own = vec![fixed("y", "b")];
    assert_eq!(
        plan_set_task_time(&"t2".to_string(), None, ts(25), ts(35), &tasks, &instances),
        Err(TaskPlanError::NotFound)
    );
    assert_eq!(
        plan_set_task_time(&"t2".to_string(), Some(&own), ts(25), ts(35), &tasks, &instances),
        Ok(vec![("y".to_string(), "b".to_string())])
    );
    assert_eq!(
        plan_set_task_time(&"t1".to_string(), Some(&own), ts(25), ts(35), &tasks, &instances),
        Err(TaskPlanError::Allocation(AllocationError::InstanceNotAvailable { instance_id: "b".to_string() }))
    );
}

#[test]
fn power_step_persists_and_fulfils() {
    let p = power_step(ts(100), None, 0, DesiredPower::On, PowerState::WarmingUp, 20_000, 5_000, 15_000, Some(PowerState::WarmingUp));
    assert_eq!(p, PowerStep { desired: DesiredPower::On, actual: PowerState::On, persist: true, fulfilled: true });
    let p = power_step(ts(100), Some(ts(150)), 60_000, DesiredPower::On, PowerState::On, 0, 5_000, 15_000, Some(PowerState::On));
    assert_eq!(p, PowerStep { desired: DesiredPower::Off, actual: PowerState::On, persist: false, fulfilled: false });
    let p = power_step(ts(100), None, 0, DesiredPower::Off, PowerState::CoolingDown, 10, 5_000, 15_000, None);
    assert_eq!(p, PowerStep { desired: DesiredPower::Off, actual: PowerState::CoolingDown, persist: true, fulfilled: false });
    assert_eq!(persisted_after(None, PowerState::On, true), Some(PowerState::On));
    assert_eq!(persisted_after(Some(PowerState::Off), PowerState::On, false), Some(PowerState::Off));
}

#[test]
fn driver_state_steps() {
    let fresh = RunningDriver { terminate_requested: 0, finished: false, received_connected: false };
    let changed = DriverState { spec_changed: true, running: Some(fresh) };
    let (s, a) = request_termination(changed);
    assert_eq!(a, TerminationAction::RequestTerminate { requested: 1 });
    assert_eq!(s.running.unwrap().terminate_requested, 1);
    let stubborn = DriverState { spec_changed: true, running: Some(RunningDriver { terminate_requested: 11, ..fresh }) };
    assert_eq!(request_termination(stubborn), (stubborn, TerminationAction::Abort));
    let unchanged = DriverState { spec_changed: false, running: Some(fresh) };
    assert_eq!(request_termination(unchanged), (unchanged, TerminationAction::Keep));
    assert!(driver_running(&unchanged));
    assert_eq!(respawn_step(unchanged, true), (unchanged, false));
    let finished = DriverState { spec_changed: true, running: Some(RunningDriver { finished: true, ..fresh }) };
    assert!(!driver_running(&finished));
    assert_eq!(respawn_step(finished, true), (DriverState { spec_changed: false, running: Some(fresh) }, true));
    assert_eq!(respawn_step(finished, false), (DriverState { spec_changed: true, running: None }, false));
    let connected = connection_changed(unchanged, true);
    assert_eq!(connected.running.unwrap().received_connected, true);
    assert_eq!(connection_changed(DriverState { spec_changed: false, running: None }, true).running, None);
}
