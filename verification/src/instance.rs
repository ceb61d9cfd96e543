//! Power state of fixed instances, and ids of plays and renders.
use vstd::prelude::*;

use crate::time::Timestamped;

verus! {

/// Actual power state of an instance.
#[derive(Clone, Copy, Debug, PartialEq, Eq)]
pub enum InstancePowerState {
    PoweringUp,
    ShuttingDown,
    PoweredUp,
    ShutDown,
}

/// Requested power state of an instance.
#[derive(Clone, Copy, Debug, PartialEq, Eq)]
pub enum DesiredInstancePowerState {
    PoweredUp,
    ShutDown,
}

/// The settled state that a boolean power flag stands for.
pub open spec fn power_state_of(power: bool) -> InstancePowerState {
    if power {
        InstancePowerState::PoweredUp
    } else {
        InstancePowerState::ShutDown
    }
}

/// A state fulfils a request when it is the settled state of the same kind.
pub open spec fn power_satisfies(s: InstancePowerState, d: DesiredInstancePowerState) -> bool {
    (s == InstancePowerState::PoweredUp && d == DesiredInstancePowerState::PoweredUp) || (s
        == InstancePowerState::ShutDown && d == DesiredInstancePowerState::ShutDown)
}

/// The boolean a request stands for.
pub open spec fn desired_power(d: DesiredInstancePowerState) -> bool {
    d == DesiredInstancePowerState::PoweredUp
}

impl InstancePowerState {
    /// Powered up when `power` holds, shut down otherwise.
    pub fn from_bool(power: bool) -> (s: Self)
        ensures
            s == power_state_of(power),
    {
        match power {
            true => Self::PoweredUp,
            false => Self::ShutDown,
        }
    }

    /// Whether this state fulfils the requested one: only a settled state of
    /// the same kind does.
    pub fn satisfies(self, desired: DesiredInstancePowerState) -> (r: bool)
        ensures
            r == power_satisfies(self, desired),
    {
        match (self, desired) {
            (Self::PoweredUp, DesiredInstancePowerState::PoweredUp) => true,
            (Self::ShutDown, DesiredInstancePowerState::ShutDown) => true,
            _ => false,
        }
    }

    /// Whether the instance is powered up (not while powering up).
    pub fn is_powered_on(&self) -> (r: bool)
        ensures
            r == (*self == InstancePowerState::PoweredUp),
    {
        matches!(self, Self::PoweredUp)
    }
}

impl DesiredInstancePowerState {
    /// `true` for powered up, `false` for shut down.
    pub fn to_bool(self) -> (r: bool)
        ensures
            r == desired_power(self),
    {
        match self {
            DesiredInstancePowerState::PoweredUp => true,
            DesiredInstancePowerState::ShutDown => false,
        }
    }
}

/// The state made from a power flag fulfils exactly the request that stands
/// for the same flag.
pub proof fn law_power_state_from_bool_satisfies(power: bool, desired: DesiredInstancePowerState)
    ensures
        power_satisfies(power_state_of(power), desired) == (desired_power(desired) == power),
{
}

/// A state that fulfils a request is powered on exactly when the request asks
/// for power; transitional states fulfil no request.
pub proof fn law_power_satisfies_agrees(s: InstancePowerState, desired: DesiredInstancePowerState)
    ensures
        power_satisfies(s, desired) ==> ((s == InstancePowerState::PoweredUp) == desired_power(
            desired,
        )),
        s == InstancePowerState::PoweringUp ==> !power_satisfies(s, desired),
        s == InstancePowerState::ShuttingDown ==> !power_satisfies(s, desired),
{
}

/// The requested and the actual power state of an instance, each stamped
/// with the time it was last set.
#[derive(Clone, Copy, Debug, PartialEq)]
pub struct ReportInstancePowerState {
    pub desired: Timestamped<DesiredInstancePowerState>,
    pub actual: Timestamped<InstancePowerState>,
}

/// Id of a play of a task.
#[derive(Clone, Copy, Debug, PartialEq, Eq, Hash)]
pub struct PlayId(u64);

impl PlayId {
    pub fn new(id: u64) -> (p: Self)
        ensures
            p.value() == id,
    {
        PlayId(id)
    }

    /// The number of the play.
    pub closed spec fn value(self) -> u64 {
        self.0
    }

    /// The number of the play.
    pub fn into_inner(self) -> (n: u64)
        ensures
            n == self.value(),
    {
        self.0
    }
}

/// Id of a render of a task.
#[derive(Clone, Copy, Debug, PartialEq, Eq, Hash)]
pub struct RenderId(u64);

impl RenderId {
    pub fn new(id: u64) -> (r: Self)
        ensures
            r.value() == id,
    {
        RenderId(id)
    }

    /// The number of the render.
    pub closed spec fn value(self) -> u64 {
        self.0
    }

    /// The number of the render.
    pub fn into_inner(self) -> (n: u64)
        ensures
            n == self.value(),
    {
        self.0
    }
}

} // verus!
