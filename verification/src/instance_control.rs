//! Decisions of the services that keep fixed instances in their requested
//! power and play states, and that keep their drivers running.
use vstd::prelude::*;

use crate::time::{instant_in_range, Span, Timestamp};

verus! {

/// Power state of an instance as the instance service follows it.
#[derive(Clone, Copy, Debug, PartialEq, Eq, Structural)]
pub enum PowerState {
    Off,
    On,
    CoolingDown,
    WarmingUp,
}

/// Power state requested of an instance.
#[derive(Clone, Copy, Debug, PartialEq, Eq)]
pub enum DesiredPower {
    Off,
    On,
}

/// Whether a driver is connected to its instance.
#[derive(Clone, Copy, Debug, PartialEq, Eq)]
pub enum InstanceConnectionState {
    Connected,
    Disconnected,
}

/// Milliseconds an instance may stay idle before it is powered down: as
/// configured, five minutes otherwise.
pub fn idle_ms(configured: Option<u64>) -> (ms: u64)
    ensures
        ms == match configured {
            Some(c) => c,
            None => 300_000,
        },
{
    match configured {
        Some(c) => c,
        None => 5 * 60 * 1000,
    }
}

/// Milliseconds an instance takes to cool down: as configured, five seconds
/// otherwise.
pub fn cooling_down_ms(configured: Option<u64>) -> (ms: u64)
    ensures
        ms == match configured {
            Some(c) => c,
            None => 5_000,
        },
{
    match configured {
        Some(c) => c,
        None => 5 * 1000,
    }
}

/// Milliseconds an instance takes to warm up: as configured, fifteen seconds
/// otherwise.
pub fn warming_up_ms(configured: Option<u64>) -> (ms: u64)
    ensures
        ms == match configured {
            Some(c) => c,
            None => 15_000,
        },
{
    match configured {
        Some(c) => c,
        None => 15 * 1000,
    }
}

/// The idle time in milliseconds as a signed count: values above `i64::MAX`
/// wrap around to negative ones, as `as i64` does.
pub open spec fn signed_idle(idle: u64) -> int {
    (idle as i64) as int
}

/// Whether an idle time can be added to `now`: its signed count is not
/// `i64::MIN` milliseconds and the instant it leads to is representable.
pub open spec fn idle_addable(now: Timestamp, idle: u64) -> bool {
    signed_idle(idle) > i64::MIN && instant_in_range(now@ + signed_idle(idle) * 1_000_000)
}

/// Whether a power request has run out: the instance would idle past the end
/// of the request. The idle time counts as the signed number `idle as i64`.
pub fn power_control_lapsed(now: Timestamp, idle: u64, until: Timestamp) -> (r: bool)
    requires
        idle_addable(now, idle),
    ensures
        r == (now@ + signed_idle(idle) * 1_000_000 > until@),
{
    let deadline = now.add_span(Span::milliseconds(idle as i64));
    until.is_before(&deadline)
}

/// Whether a play request has run out: `now` is past its end.
pub fn play_control_lapsed(now: Timestamp, until: Timestamp) -> (r: bool)
    ensures
        r == (now@ > until@),
{
    until.is_before(&now)
}

/// The power state once the warm up or cool down time has passed: cooling
/// down turns off and warming up turns on when strictly more time than needed
/// has elapsed since the state was entered; other states stay.
pub open spec fn settled_power(actual: PowerState, elapsed_ms: u64, cool_down: u64, warm_up: u64) -> PowerState {
    match actual {
        PowerState::CoolingDown => if elapsed_ms > cool_down {
            PowerState::Off
        } else {
            PowerState::CoolingDown
        },
        PowerState::WarmingUp => if elapsed_ms > warm_up {
            PowerState::On
        } else {
            PowerState::WarmingUp
        },
        other => other,
    }
}

/// The state an instance enters once the command for the requested power
/// state has succeeded: it starts cooling down or warming up.
pub open spec fn entered_power(desired: DesiredPower) -> PowerState {
    match desired {
        DesiredPower::Off => PowerState::CoolingDown,
        DesiredPower::On => PowerState::WarmingUp,
    }
}

/// The settled state that fulfils a request.
pub open spec fn fulfilling_power(desired: DesiredPower) -> PowerState {
    match desired {
        DesiredPower::Off => PowerState::Off,
        DesiredPower::On => PowerState::On,
    }
}

/// Applies the warm up or cool down timer to the actual power state.
pub fn settle_power(actual: PowerState, elapsed_ms: u64, cool_down: u64, warm_up: u64) -> (s: PowerState)
    ensures
        s == settled_power(actual, elapsed_ms, cool_down, warm_up),
{
    match actual {
        PowerState::CoolingDown => if elapsed_ms > cool_down {
            PowerState::Off
        } else {
            PowerState::CoolingDown
        },
        PowerState::WarmingUp => if elapsed_ms > warm_up {
            PowerState::On
        } else {
            PowerState::WarmingUp
        },
        other => other,
    }
}

/// The requested and actual power state after one update of an instance.
#[derive(Clone, Copy, Debug, PartialEq, Eq)]
pub struct PowerUpdate {
    pub desired: DesiredPower,
    pub actual: PowerState,
}

/// The decisions of one power update of an instance: a power request whose
/// end (`control_until`) would pass while the instance idles for `idle`
/// milliseconds after `now` turns into a request to power off; the actual
/// state follows its warm up or cool down timer, `elapsed_ms` being the time
/// spent in it. With a request, the idle time must be addable to `now`.
pub fn update_power_state(
    now: Timestamp,
    control_until: Option<Timestamp>,
    idle: u64,
    desired: DesiredPower,
    actual: PowerState,
    elapsed_ms: u64,
    cool_down: u64,
    warm_up: u64,
) -> (u: PowerUpdate)
    requires
        control_until is Some ==> idle_addable(now, idle),
    ensures
        u.desired == match control_until {
            Some(until) => if now@ + signed_idle(idle) * 1_000_000 > until@ {
                DesiredPower::Off
            } else {
                desired
            },
            None => desired,
        },
        u.actual == settled_power(actual, elapsed_ms, cool_down, warm_up),
{
    let desired = match control_until {
        Some(until) => if power_control_lapsed(now, idle, until) {
            DesiredPower::Off
        } else {
            desired
        },
        None => desired,
    };
    PowerUpdate { desired, actual: settle_power(actual, elapsed_ms, cool_down, warm_up) }
}

/// The outcome of one power update of an instance: the requested and actual
/// state, whether the actual state must be stored and announced because it
/// differs from the one last stored, and whether the request is fulfilled.
#[derive(Clone, Copy, Debug, PartialEq, Eq)]
pub struct PowerStep {
    pub desired: DesiredPower,
    pub actual: PowerState,
    pub persist: bool,
    pub fulfilled: bool,
}

/// One power update of an instance: the decisions of `update_power_state`,
/// then whether the actual state differs from the one last stored
/// (`persisted`), and whether it is the settled state that fulfils the
/// request.
pub fn power_step(
    now: Timestamp,
    control_until: Option<Timestamp>,
    idle: u64,
    desired: DesiredPower,
    actual: PowerState,
    elapsed_ms: u64,
    cool_down: u64,
    warm_up: u64,
    persisted: Option<PowerState>,
) -> (p: PowerStep)
    requires
        control_until is Some ==> idle_addable(now, idle),
    ensures
        p.desired == match control_until {
            Some(until) => if now@ + signed_idle(idle) * 1_000_000 > until@ {
                DesiredPower::Off
            } else {
                desired
            },
            None => desired,
        },
        p.actual == settled_power(actual, elapsed_ms, cool_down, warm_up),
        p.persist == (persisted != Some(p.actual)),
        p.fulfilled == (p.actual == fulfilling_power(p.desired)),
{
    let u = update_power_state(
        now,
        control_until,
        idle,
        desired,
        actual,
        elapsed_ms,
        cool_down,
        warm_up,
    );
    let persist = match persisted {
        Some(stored) => stored != u.actual,
        None => true,
    };
    let fulfilled = u.actual == match u.desired {
        DesiredPower::Off => PowerState::Off,
        DesiredPower::On => PowerState::On,
    };
    PowerStep { desired: u.desired, actual: u.actual, persist, fulfilled }
}

/// The power state stored for an instance after trying to store `actual`:
/// it when storing succeeded, the earlier one otherwise.
pub fn persisted_after(persisted: Option<PowerState>, actual: PowerState, stored: bool) -> (r: Option<PowerState>)
    ensures
        r == if stored {
            Some(actual)
        } else {
            persisted
        },
{
    if stored {
        Some(actual)
    } else {
        persisted
    }
}

/// The state entered once the power command succeeded.
pub fn power_set_success(desired: DesiredPower) -> (s: PowerState)
    ensures
        s == entered_power(desired),
{
    match desired {
        DesiredPower::Off => PowerState::CoolingDown,
        DesiredPower::On => PowerState::WarmingUp,
    }
}

/// After a successful power command the instance reaches the requested state
/// once more than its cool down (when powering off) or warm up (when powering
/// on) time has elapsed, and stays in transition until then; settled states
/// are left alone by the timers.
pub proof fn law_power_command_settles(
    desired: DesiredPower,
    elapsed_ms: u64,
    cool_down: u64,
    warm_up: u64,
)
    ensures
        ({
            let needed = match desired {
                DesiredPower::Off => cool_down,
                DesiredPower::On => warm_up,
            };
            let s = settled_power(entered_power(desired), elapsed_ms, cool_down, warm_up);
            &&& elapsed_ms > needed ==> s == fulfilling_power(desired)
            &&& elapsed_ms <= needed ==> s == entered_power(desired)
        }),
        settled_power(fulfilling_power(desired), elapsed_ms, cool_down, warm_up)
            == fulfilling_power(desired),
{
}

/// Milliseconds of media left from `position_ms` to the end of
/// `duration_ms`; the position must not be past the end.
pub fn remaining_media_ms(duration_ms: u64, position_ms: u64) -> (ms: u64)
    requires
        position_ms <= duration_ms,
    ensures
        ms == duration_ms - position_ms,
{
    duration_ms - position_ms
}

/// What to do with a running driver whose instance specification changed.
#[derive(Clone, Copy, Debug, PartialEq, Eq)]
pub enum TerminationAction {
    /// Nothing to terminate.
    Keep,
    /// The driver ignored more than ten requests to terminate: abort it.
    Abort,
    /// Ask the driver to terminate, counting the request.
    RequestTerminate { requested: u32 },
}

/// Decides how to stop the running driver (with `terminate_requested`
/// requests so far, or none running) when the specification changed.
pub fn termination_action(spec_changed: bool, terminate_requested: Option<u32>) -> (a: TerminationAction)
    ensures
        a == if !spec_changed {
            TerminationAction::Keep
        } else {
            match terminate_requested {
                None => TerminationAction::Keep,
                Some(n) => if n > 10 {
                    TerminationAction::Abort
                } else {
                    TerminationAction::RequestTerminate { requested: (n + 1) as u32 }
                },
            }
        },
{
    if !spec_changed {
        return TerminationAction::Keep;
    }
    match terminate_requested {
        None => TerminationAction::Keep,
        Some(n) => if n > 10 {
            TerminationAction::Abort
        } else {
            TerminationAction::RequestTerminate { requested: n + 1 }
        },
    }
}

/// A running driver of an instance: how many times it was asked to
/// terminate, whether its task has finished, and whether it reported a
/// connection.
#[derive(Clone, Copy, Debug, PartialEq, Eq, Structural)]
pub struct RunningDriver {
    pub terminate_requested: u32,
    pub finished: bool,
    pub received_connected: bool,
}

/// What the driver service keeps of an instance whose specification is
/// known: whether the specification differs from the one the running driver
/// was started with, and the running driver, if any.
#[derive(Clone, Copy, Debug, PartialEq, Eq, Structural)]
pub struct DriverState {
    pub spec_changed: bool,
    pub running: Option<RunningDriver>,
}

/// The first half of a respawn round for one instance: when the specification
/// changed, a running driver is aborted after more than ten requests to
/// terminate, and otherwise asked once more (the request is counted).
pub fn request_termination(state: DriverState) -> (r: (DriverState, TerminationAction))
    ensures
        r.1 == match state.running {
            Some(d) => if !state.spec_changed {
                TerminationAction::Keep
            } else if d.terminate_requested > 10 {
                TerminationAction::Abort
            } else {
                TerminationAction::RequestTerminate { requested: (d.terminate_requested + 1) as u32 }
            },
            None => TerminationAction::Keep,
        },
        r.0.spec_changed == state.spec_changed,
        r.0.running == match r.1 {
            TerminationAction::RequestTerminate { requested } => Some(
                RunningDriver { terminate_requested: requested, ..state.running.unwrap() },
            ),
            _ => state.running,
        },
{
    let requested = match state.running {
        Some(d) => Some(d.terminate_requested),
        None => None,
    };
    let action = termination_action(state.spec_changed, requested);
    let running = match action {
        TerminationAction::RequestTerminate { requested } => match state.running {
            Some(d) => Some(RunningDriver { terminate_requested: requested, ..d }),
            None => None,
        },
        _ => state.running,
    };
    (DriverState { spec_changed: state.spec_changed, running }, action)
}

/// Whether a driver is running: started and its task not finished.
pub fn driver_running(state: &DriverState) -> (r: bool)
    ensures
        r == (state.running matches Some(d) && !d.finished),
{
    match state.running {
        Some(d) => !d.finished,
        None => false,
    }
}

/// The second half of a respawn round for one instance: a running driver is
/// left alone; otherwise the finished one is dropped and, when `allowed`
/// (the instance may be respawned here and the rate limit lets it), a fresh
/// driver is started for the current specification. Tells whether one was
/// started.
pub fn respawn_step(state: DriverState, allowed: bool) -> (r: (DriverState, bool))
    ensures
        r == if state.running matches Some(d) && !d.finished {
            (state, false)
        } else if allowed {
            (
                DriverState {
                    spec_changed: false,
                    running: Some(
                        RunningDriver {
                            terminate_requested: 0,
                            finished: false,
                            received_connected: false,
                        },
                    ),
                },
                true,
            )
        } else {
            (DriverState { spec_changed: state.spec_changed, running: None }, false)
        },
{
    if driver_running(&state) {
        (state, false)
    } else if allowed {
        (
            DriverState {
                spec_changed: false,
                running: Some(
                    RunningDriver { terminate_requested: 0, finished: false, received_connected: false },
                ),
            },
            true,
        )
    } else {
        (DriverState { spec_changed: state.spec_changed, running: None }, false)
    }
}

/// Records a connection change reported by the running driver, if any.
pub fn connection_changed(state: DriverState, connected: bool) -> (r: DriverState)
    ensures
        r.spec_changed == state.spec_changed,
        r.running == match state.running {
            Some(d) => Some(RunningDriver { received_connected: connected, ..d }),
            None => None,
        },
{
    match state.running {
        Some(d) => DriverState {
            spec_changed: state.spec_changed,
            running: Some(RunningDriver { received_connected: connected, ..d }),
        },
        None => state,
    }
}

/// Whether a driver that is not running may be started here, before the
/// rate limit is consulted: the instance must be hosted here and, when its
/// driver needs power, be known to be powered on.
pub fn may_respawn(host_matches: bool, driver_needs_power: bool, powered_on: Option<bool>) -> (r: bool)
    ensures
        r == (host_matches && (driver_needs_power ==> powered_on == Some(true))),
{
    let power_ok = if driver_needs_power {
        match powered_on {
            Some(on) => on,
            None => false,
        }
    } else {
        true
    };
    host_matches && power_ok
}

/// The connection state reported for an instance hosted here: connected when
/// a driver has been started whose task has finished and which had reported a
/// connection, disconnected otherwise.
pub fn reported_connection_state(running: Option<(bool, bool)>) -> (s: InstanceConnectionState)
    ensures
        s == match running {
            Some((finished, received_connected)) => if finished && received_connected {
                InstanceConnectionState::Connected
            } else {
                InstanceConnectionState::Disconnected
            },
            None => InstanceConnectionState::Disconnected,
        },
{
    let is_running = match running {
        Some((finished, received_connected)) => finished && received_connected,
        None => false,
    };
    if is_running {
        InstanceConnectionState::Connected
    } else {
        InstanceConnectionState::Disconnected
    }
}

/// The connection state a driver reports by its connected flag.
pub fn connection_state_of(connected: bool) -> (s: InstanceConnectionState)
    ensures
        s == if connected {
            InstanceConnectionState::Connected
        } else {
            InstanceConnectionState::Disconnected
        },
{
    if connected {
        InstanceConnectionState::Connected
    } else {
        InstanceConnectionState::Disconnected
    }
}

/// What the instance service does when the specification of an instance
/// changes.
#[derive(Clone, Copy, Debug, PartialEq, Eq)]
pub struct SpecChangeActions {
    /// Stop following the instance's driver events.
    pub unsubscribe_events: bool,
    /// Start following the instance's driver events.
    pub subscribe_events: bool,
    /// Read the persisted power state of the instance.
    pub load_power_state: bool,
    /// Read the persisted play state of the instance.
    pub load_play_state: bool,
}

/// Decides the actions for a new specification: `spec` tells, when there is
/// one, whether it has media and whether it has power settings; `subscribed`
/// whether the driver's events are already followed.
pub fn spec_change_actions(spec: Option<(bool, bool)>, subscribed: bool) -> (a: SpecChangeActions)
    ensures
        a == match spec {
            None => SpecChangeActions {
                unsubscribe_events: true,
                subscribe_events: false,
                load_power_state: false,
                load_play_state: false,
            },
            Some((media, power)) => SpecChangeActions {
                unsubscribe_events: false,
                subscribe_events: media && !subscribed,
                load_power_state: power,
                load_play_state: media,
            },
        },
{
    match spec {
        None => SpecChangeActions {
            unsubscribe_events: true,
            subscribe_events: false,
            load_power_state: false,
            load_play_state: false,
        },
        Some((media, power)) => SpecChangeActions {
            unsubscribe_events: false,
            subscribe_events: media && !subscribed,
            load_power_state: power,
            load_play_state: media,
        },
    }
}

} // verus!
