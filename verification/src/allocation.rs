//! Allocating fixed instances to a task for a time window, given the tasks
//! that already hold instances.
use vstd::prelude::*;

use crate::time::Timestamp;

verus! {

/// An existing task: its id, its time window and the ids of the instances it
/// holds.
#[derive(Clone, Debug)]
pub struct TaskClaim {
    pub id: String,
    pub from: Timestamp,
    pub to: Timestamp,
    pub instances: Vec<String>,
}

/// A request for an instance.
#[derive(Clone, Debug)]
pub enum InstanceAllocationRequest {
    /// A particular fixed instance.
    Fixed { instance_id: String },
    /// Any instance of a model.
    Dynamic { model_id: String },
}

/// Why the requested instances could not be allocated.
#[derive(Clone, Debug, PartialEq, Eq)]
pub enum AllocationError {
    /// The requested fixed instance does not exist or another task holds it
    /// during the window.
    InstanceNotAvailable { instance_id: String },
    /// No instance of the requested model is available.
    NoInstanceForModel { model_id: String },
}

/// The task's window overlaps the window from `from` to `to`.
pub open spec fn overlaps(t: TaskClaim, from: Timestamp, to: Timestamp) -> bool {
    !(t.from@ >= to@ || t.to@ <= from@)
}

/// The task holds the instance named `inst`.
pub open spec fn claims(t: TaskClaim, inst: Seq<char>) -> bool {
    exists|i: int| 0 <= i < t.instances@.len() && (#[trigger] t.instances@[i])@ == inst
}

/// The task keeps its instances from being allocated: it overlaps the window
/// and is not the task being reallocated.
pub open spec fn blocks(t: TaskClaim, from: Timestamp, to: Timestamp, ignore: Option<String>) -> bool {
    overlaps(t, from, to) && !(ignore matches Some(id) && id@ == t.id@)
}

/// The instance named `inst` exists and no blocking task holds it.
pub open spec fn available(
    tasks: Seq<TaskClaim>,
    instances: Seq<String>,
    inst: Seq<char>,
    from: Timestamp,
    to: Timestamp,
    ignore: Option<String>,
) -> bool {
    &&& exists|i: int| 0 <= i < instances.len() && (#[trigger] instances[i])@ == inst
    &&& forall|k: int|
        0 <= k < tasks.len() && blocks(#[trigger] tasks[k], from, to, ignore) ==> !claims(
            tasks[k],
            inst,
        )
}

/// The request can be granted.
pub open spec fn grantable(
    r: InstanceAllocationRequest,
    tasks: Seq<TaskClaim>,
    instances: Seq<String>,
    from: Timestamp,
    to: Timestamp,
    ignore: Option<String>,
) -> bool {
    match r {
        InstanceAllocationRequest::Fixed { instance_id } => available(
            tasks,
            instances,
            instance_id@,
            from,
            to,
            ignore,
        ),
        InstanceAllocationRequest::Dynamic { .. } => false,
    }
}

/// The error for a request that cannot be granted.
pub open spec fn refusal(r: InstanceAllocationRequest) -> AllocationError {
    match r {
        InstanceAllocationRequest::Fixed { instance_id } => AllocationError::InstanceNotAvailable {
            instance_id,
        },
        InstanceAllocationRequest::Dynamic { model_id } => AllocationError::NoInstanceForModel {
            model_id,
        },
    }
}

fn string_in(list: &Vec<String>, s: &String) -> (r: bool)
    ensures
        r == exists|i: int| 0 <= i < list@.len() && (#[trigger] list@[i])@ == s@,
{
    let mut i: usize = 0;
    while i < list.len()
        invariant
            0 <= i <= list.len(),
            forall|j: int| 0 <= j < i ==> (#[trigger] list@[j])@ != s@,
        decreases list.len() - i,
    {
        if list[i] == *s {
            return true;
        }
        i += 1;
    }
    false
}

fn is_available(
    tasks: &Vec<TaskClaim>,
    instances: &Vec<String>,
    inst: &String,
    from: Timestamp,
    to: Timestamp,
    ignore_task_id: &Option<String>,
) -> (r: bool)
    ensures
        r == available(tasks@, instances@, inst@, from, to, *ignore_task_id),
{
    if !string_in(instances, inst) {
        return false;
    }
    let mut k: usize = 0;
    while k < tasks.len()
        invariant
            0 <= k <= tasks.len(),
            forall|j: int|
                0 <= j < k && blocks(#[trigger] tasks@[j], from, to, *ignore_task_id) ==> !claims(
                    tasks@[j],
                    inst@,
                ),
        decreases tasks.len() - k,
    {
        let task = &tasks[k];
        let overlapping = !(!task.from.is_before(&to) || !from.is_before(&task.to));
        let ignored = match ignore_task_id {
            Some(id) => *id == task.id,
            None => false,
        };
        if overlapping && !ignored && string_in(&task.instances, inst) {
            return false;
        }
        k += 1;
    }
    true
}

/// Every request can be granted, and `allocated` pairs each request's id with
/// its instance, in request order.
pub open spec fn allocation_granted(
    requests: Seq<(String, InstanceAllocationRequest)>,
    tasks: Seq<TaskClaim>,
    instances: Seq<String>,
    from: Timestamp,
    to: Timestamp,
    ignore: Option<String>,
    allocated: Seq<(String, String)>,
) -> bool {
    &&& forall|i: int|
        0 <= i < requests.len() ==> grantable(
            #[trigger] requests[i].1,
            tasks,
            instances,
            from,
            to,
            ignore,
        )
    &&& allocated.len() == requests.len()
    &&& forall|i: int|
        0 <= i < requests.len() ==> (#[trigger] allocated[i]).0 == requests[i].0
            && requests[i].1 == (InstanceAllocationRequest::Fixed { instance_id: allocated[i].1 })
}

/// Request `j` is the first that cannot be granted, and `e` is its refusal.
pub open spec fn allocation_refused(
    requests: Seq<(String, InstanceAllocationRequest)>,
    tasks: Seq<TaskClaim>,
    instances: Seq<String>,
    from: Timestamp,
    to: Timestamp,
    ignore: Option<String>,
    e: AllocationError,
) -> bool {
    exists|j: int|
        0 <= j < requests.len() && !grantable(
            #[trigger] requests[j].1,
            tasks,
            instances,
            from,
            to,
            ignore,
        ) && e == refusal(requests[j].1) && forall|i: int|
            0 <= i < j ==> grantable(#[trigger] requests[i].1, tasks, instances, from, to, ignore)
}

/// Allocates the requested instances for the window from `from` to `to`.
///
/// An instance is available when it exists and no task other than
/// `ignore_task_id` whose window overlaps holds it. Each fixed request gets its
/// instance when available; a request for any instance of a model is never
/// granted. On success the result pairs each request's id with its instance,
/// in request order; otherwise the first request that cannot be granted gives
/// the error.
pub fn allocate_instances(
    from: Timestamp,
    to: Timestamp,
    tasks: &Vec<TaskClaim>,
    instances: &Vec<String>,
    requests: &Vec<(String, InstanceAllocationRequest)>,
    ignore_task_id: &Option<String>,
) -> (r: Result<Vec<(String, String)>, AllocationError>)
    ensures
        match r {
            Ok(allocated) => allocation_granted(
                requests@,
                tasks@,
                instances@,
                from,
                to,
                *ignore_task_id,
                allocated@,
            ),
            Err(e) => allocation_refused(requests@, tasks@, instances@, from, to, *ignore_task_id, e),
        },
{
    let mut allocated: Vec<(String, String)> = Vec::new();
    let mut i: usize = 0;
    while i < requests.len()
        invariant
            0 <= i <= requests.len(),
            allocated@.len() == i,
            forall|j: int|
                0 <= j < i ==> grantable(
                    #[trigger] requests@[j].1,
                    tasks@,
                    instances@,
                    from,
                    to,
                    *ignore_task_id,
                ),
            forall|j: int|
                0 <= j < i ==> (#[trigger] allocated@[j]).0 == requests@[j].0 && requests@[j].1 == (
                InstanceAllocationRequest::Fixed { instance_id: allocated@[j].1 }),
        decreases requests.len() - i,
    {
        let (alloc_id, request) = &requests[i];
        match request {
            InstanceAllocationRequest::Fixed { instance_id } => {
                if !is_available(tasks, instances, instance_id, from, to, ignore_task_id) {
                    return Err(
                        AllocationError::InstanceNotAvailable { instance_id: instance_id.clone() },
                    );
                }
                allocated.push((alloc_id.clone(), instance_id.clone()));
            },
            InstanceAllocationRequest::Dynamic { model_id } => {
                return Err(AllocationError::NoInstanceForModel { model_id: model_id.clone() });
            },
        }
        i += 1;
    }
    Ok(allocated)
}

/// Why a task could not be created or given a new time window.
#[derive(Clone, Debug, PartialEq, Eq)]
pub enum TaskPlanError {
    /// A task with the id already exists.
    AlreadyExists,
    /// No task with the id exists.
    NotFound,
    /// The task's instances could not be allocated.
    Allocation(AllocationError),
}

/// The instances for a new task with the window from `from` to `to`: refused
/// when a task with its id already `exists`, otherwise allocated among all
/// tasks.
pub fn plan_create_task(
    exists: bool,
    from: Timestamp,
    to: Timestamp,
    tasks: &Vec<TaskClaim>,
    instances: &Vec<String>,
    requests: &Vec<(String, InstanceAllocationRequest)>,
) -> (r: Result<Vec<(String, String)>, TaskPlanError>)
    ensures
        exists ==> r == Err::<Vec<(String, String)>, TaskPlanError>(TaskPlanError::AlreadyExists),
        !exists ==> match r {
            Ok(allocated) => allocation_granted(
                requests@,
                tasks@,
                instances@,
                from,
                to,
                None,
                allocated@,
            ),
            Err(TaskPlanError::Allocation(e)) => allocation_refused(
                requests@,
                tasks@,
                instances@,
                from,
                to,
                None,
                e,
            ),
            Err(_) => false,
        },
{
    if exists {
        return Err(TaskPlanError::AlreadyExists);
    }
    match allocate_instances(from, to, tasks, instances, requests, &None) {
        Ok(allocated) => Ok(allocated),
        Err(e) => Err(TaskPlanError::Allocation(e)),
    }
}

/// The instances for moving the task `task_id` (whose requests are
/// `requests`, if it exists) to the window from `from` to `to`: the task
/// itself does not block its own instances.
pub fn plan_set_task_time(
    task_id: &String,
    requests: Option<&Vec<(String, InstanceAllocationRequest)>>,
    from: Timestamp,
    to: Timestamp,
    tasks: &Vec<TaskClaim>,
    instances: &Vec<String>,
) -> (r: Result<Vec<(String, String)>, TaskPlanError>)
    ensures
        match requests {
            None => r == Err::<Vec<(String, String)>, TaskPlanError>(TaskPlanError::NotFound),
            Some(reqs) => match r {
                Ok(allocated) => allocation_granted(
                    reqs@,
                    tasks@,
                    instances@,
                    from,
                    to,
                    Some(*task_id),
                    allocated@,
                ),
                Err(TaskPlanError::Allocation(e)) => allocation_refused(
                    reqs@,
                    tasks@,
                    instances@,
                    from,
                    to,
                    Some(*task_id),
                    e,
                ),
                Err(_) => false,
            },
        },
{
    match requests {
        None => Err(TaskPlanError::NotFound),
        Some(reqs) => {
            let ignore = Some(task_id.clone());
            match allocate_instances(from, to, tasks, instances, reqs, &ignore) {
                Ok(allocated) => Ok(allocated),
                Err(e) => Err(TaskPlanError::Allocation(e)),
            }
        },
    }
}

/// A task blocks exactly when its window and the requested one share more
/// than an instant (`t.from < to` and `from < t.to`) and it is not the task
/// set aside.
pub proof fn law_blocking_windows(t: TaskClaim, from: Timestamp, to: Timestamp, ignore: Option<String>)
    ensures
        blocks(t, from, to, ignore) == (t.from@ < to@ && from@ < t.to@ && !(ignore matches Some(
            id,
        ) && id@ == t.id@)),
{
}

/// An instance held by a task whose window intersects the requested one, and
/// which is not set aside, is not available; an instance that exists and is
/// held by no such task is available.
pub proof fn law_availability_by_windows(
    tasks: Seq<TaskClaim>,
    instances: Seq<String>,
    inst: Seq<char>,
    from: Timestamp,
    to: Timestamp,
    ignore: Option<String>,
    k: int,
    j: int,
)
    ensures
        (0 <= k < tasks.len() && 0 <= j < tasks[k].instances@.len() && tasks[k].instances@[j]@
            == inst && tasks[k].from@ < to@ && from@ < tasks[k].to@ && !(ignore matches Some(id)
            && id@ == tasks[k].id@)) ==> !available(tasks, instances, inst, from, to, ignore),
        ((exists|i: int| 0 <= i < instances.len() && (#[trigger] instances[i])@ == inst) && (
        forall|m: int, n: int|
            0 <= m < tasks.len() && 0 <= n < tasks[m].instances@.len() && (
            #[trigger] tasks[m].instances@[n])@ == inst ==> (tasks[m].to@ <= from@ || tasks[m].from@
                >= to@ || (ignore matches Some(id) && id@ == tasks[m].id@))))
            ==> available(tasks, instances, inst, from, to, ignore),
{
    if 0 <= k < tasks.len() && 0 <= j < tasks[k].instances@.len() && tasks[k].instances@[j]@
        == inst && tasks[k].from@ < to@ && from@ < tasks[k].to@ && !(ignore matches Some(id)
        && id@ == tasks[k].id@) {
        assert(blocks(tasks[k], from, to, ignore));
        assert(claims(tasks[k], inst));
    }
    if (exists|i: int| 0 <= i < instances.len() && (#[trigger] instances[i])@ == inst) && (
    forall|m: int, n: int|
        0 <= m < tasks.len() && 0 <= n < tasks[m].instances@.len() && (
        #[trigger] tasks[m].instances@[n])@ == inst ==> (tasks[m].to@ <= from@ || tasks[m].from@
            >= to@ || (ignore matches Some(id) && id@ == tasks[m].id@))) {
        assert forall|m: int|
            0 <= m < tasks.len() && blocks(#[trigger] tasks[m], from, to, ignore) implies !claims(
            tasks[m],
            inst,
        ) by {
            if claims(tasks[m], inst) {
                let n = choose|n: int|
                    0 <= n < tasks[m].instances@.len() && (#[trigger] tasks[m].instances@[n])@
                        == inst;
                assert(tasks[m].instances@[n]@ == inst);
            }
        }
    }
}

/// Every instance of a granted allocation is a requested fixed instance that
/// is available for the window; a refusal names a request for any instance
/// of a model, or a fixed instance that is not available.
pub proof fn law_allocation_outcomes(
    requests: Seq<(String, InstanceAllocationRequest)>,
    tasks: Seq<TaskClaim>,
    instances: Seq<String>,
    from: Timestamp,
    to: Timestamp,
    ignore: Option<String>,
    allocated: Seq<(String, String)>,
    e: AllocationError,
)
    ensures
        allocation_granted(requests, tasks, instances, from, to, ignore, allocated) ==> forall|i: int|
            0 <= i < allocated.len() ==> (#[trigger] allocated[i]).0 == requests[i].0
                && requests[i].1 == (InstanceAllocationRequest::Fixed {
                instance_id: allocated[i].1,
            }) && available(tasks, instances, allocated[i].1@, from, to, ignore),
        allocation_refused(requests, tasks, instances, from, to, ignore, e) ==> exists|j: int|
            0 <= j < requests.len() && match #[trigger] requests[j].1 {
                InstanceAllocationRequest::Fixed { instance_id } => !available(
                    tasks,
                    instances,
                    instance_id@,
                    from,
                    to,
                    ignore,
                ) && e == (AllocationError::InstanceNotAvailable { instance_id }),
                InstanceAllocationRequest::Dynamic { model_id } => e
                    == (AllocationError::NoInstanceForModel { model_id }),
            },
{
    if allocation_granted(requests, tasks, instances, from, to, ignore, allocated) {
        assert forall|i: int| 0 <= i < allocated.len() implies (#[trigger] allocated[i]).0
            == requests[i].0 && requests[i].1 == (InstanceAllocationRequest::Fixed {
            instance_id: allocated[i].1,
        }) && available(tasks, instances, allocated[i].1@, from, to, ignore) by {
            assert(grantable(requests[i].1, tasks, instances, from, to, ignore));
        }
    }
    if allocation_refused(requests, tasks, instances, from, to, ignore, e) {
        let j = choose|j: int|
            0 <= j < requests.len() && !grantable(
                #[trigger] requests[j].1,
                tasks,
                instances,
                from,
                to,
                ignore,
            ) && e == refusal(requests[j].1) && forall|i: int|
                0 <= i < j ==> grantable(#[trigger] requests[i].1, tasks, instances, from, to, ignore);
        assert(0 <= j < requests.len());
    }
}

/// A task whose window does not overlap the requested one has no say in
/// which instances are available.
pub proof fn law_disjoint_task_irrelevant(
    tasks: Seq<TaskClaim>,
    t: TaskClaim,
    instances: Seq<String>,
    inst: Seq<char>,
    from: Timestamp,
    to: Timestamp,
    ignore: Option<String>,
)
    requires
        !overlaps(t, from, to),
    ensures
        available(tasks.push(t), instances, inst, from, to, ignore) == available(
            tasks,
            instances,
            inst,
            from,
            to,
            ignore,
        ),
{
    let n = tasks.push(t);
    assert forall|k: int| 0 <= k < tasks.len() implies #[trigger] n[k] == tasks[k] by {}
    if available(tasks, instances, inst, from, to, ignore) {
        assert forall|k: int|
            0 <= k < n.len() && blocks(#[trigger] n[k], from, to, ignore) implies !claims(
            n[k],
            inst,
        ) by {
            if k < tasks.len() {
                assert(n[k] == tasks[k]);
            }
        }
    }
    if available(n, instances, inst, from, to, ignore) {
        assert forall|k: int|
            0 <= k < tasks.len() && blocks(#[trigger] tasks[k], from, to, ignore) implies !claims(
            tasks[k],
            inst,
        ) by {
            assert(n[k] == tasks[k]);
        }
    }
}

/// Setting a task aside when allocating for it only makes more instances
/// available: whatever is available with no task set aside stays available.
pub proof fn law_ignoring_a_task_frees_instances(
    tasks: Seq<TaskClaim>,
    instances: Seq<String>,
    inst: Seq<char>,
    from: Timestamp,
    to: Timestamp,
    ignore: String,
)
    ensures
        available(tasks, instances, inst, from, to, None) ==> available(
            tasks,
            instances,
            inst,
            from,
            to,
            Some(ignore),
        ),
{
    if available(tasks, instances, inst, from, to, None) {
        assert forall|k: int|
            0 <= k < tasks.len() && blocks(#[trigger] tasks[k], from, to, Some(ignore)) implies !claims(
            tasks[k],
            inst,
        ) by {
            assert(blocks(tasks[k], from, to, None));
        }
    }
}

} // verus!
