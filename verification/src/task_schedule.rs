//! Decisions of the server that runs the tasks of an engine: which tasks are
//! dropped because their time is over, and which are started.
use vstd::prelude::*;

use crate::time::Timestamp;

verus! {

/// When a task runs and on which engine.
#[derive(Clone, Debug)]
pub struct TaskWindow {
    pub from: Timestamp,
    pub to: Timestamp,
    pub engine: String,
}

/// What the server knows of a task: its window, once its specification is
/// known, and whether a run of it was started and, if so, has finished.
#[derive(Clone, Debug)]
pub struct TaskSlot {
    pub id: String,
    pub window: Option<TaskWindow>,
    pub run_finished: Option<bool>,
}

/// The task is kept: its specification is known and its window has not ended
/// at `now`.
pub open spec fn is_current(slot: TaskSlot, now: Timestamp) -> bool {
    slot.window matches Some(w) && w.to@ > now@
}

/// The task is started: its window has begun at `now`, it runs on the engine
/// `host`, and no run of it is going on.
pub open spec fn should_start(slot: TaskSlot, host: Seq<char>, now: Timestamp) -> bool {
    &&& slot.window matches Some(w)
    &&& w.from@ <= now@
    &&& w.engine@ == host
    &&& slot.run_finished != Some(false)
}

/// The positions, in increasing order, of the tasks to start.
pub open spec fn start_positions(tasks: Seq<TaskSlot>, host: Seq<char>, now: Timestamp) -> Seq<int>
    decreases tasks.len(),
{
    if tasks.len() == 0 {
        Seq::empty()
    } else {
        let rest = start_positions(tasks.drop_last(), host, now);
        if should_start(tasks.last(), host, now) {
            rest.push(tasks.len() - 1)
        } else {
            rest
        }
    }
}

fn current(slot: &TaskSlot, now: Timestamp) -> (r: bool)
    ensures
        r == is_current(*slot, now),
{
    match &slot.window {
        Some(w) => now.is_before(&w.to),
        None => false,
    }
}

/// Drops the tasks whose specification is gone or whose window has ended at
/// `now`, keeping the order of the others.
pub fn cleanup_stale_tasks(tasks: Vec<TaskSlot>, now: Timestamp) -> (kept: Vec<TaskSlot>)
    ensures
        kept@ == tasks@.filter(|s: TaskSlot| is_current(s, now)),
{
    let ghost all = tasks@;
    let ghost pred = |s: TaskSlot| is_current(s, now);
    let mut rest = tasks;
    let mut kept: Vec<TaskSlot> = Vec::new();
    while rest.len() > 0
        invariant
            pred == (|s: TaskSlot| is_current(s, now)),
            rest@.len() <= all.len(),
            rest@ == all.skip(all.len() - rest@.len()),
            kept@ == all.take(all.len() - rest@.len()).filter(pred),
        decreases rest.len(),
    {
        let ghost i = all.len() - rest@.len();
        let slot = rest.remove(0);
        proof {
            assert(slot == all[i]);
            assert(rest@ =~= all.skip(i + 1));
            assert(all.take(i + 1).filter(pred) == if pred(all[i]) {
                all.take(i).filter(pred).push(all[i])
            } else {
                all.take(i).filter(pred)
            }) by {
                reveal(Seq::filter);
                assert(all.take(i + 1).drop_last() =~= all.take(i));
                assert(all.take(i + 1).last() == all[i]);
            }
        }
        if current(&slot, now) {
            kept.push(slot);
        }
    }
    assert(all.take(all.len() as int) =~= all);
    kept
}

/// The positions, in increasing order, of the tasks to start at `now` on
/// the engine `host`.
pub fn tasks_to_start(tasks: &Vec<TaskSlot>, host: &String, now: Timestamp) -> (positions: Vec<usize>)
    ensures
        positions@.map_values(|p: usize| p as int) == start_positions(tasks@, host@, now),
{
    let mut positions: Vec<usize> = Vec::new();
    let mut i: usize = 0;
    while i < tasks.len()
        invariant
            0 <= i <= tasks.len(),
            positions@.map_values(|p: usize| p as int) == start_positions(
                tasks@.take(i as int),
                host@,
                now,
            ),
        decreases tasks.len() - i,
    {
        proof {
            assert(tasks@.take(i + 1).drop_last() =~= tasks@.take(i as int));
            assert(tasks@.take(i + 1).last() == tasks@[i as int]);
        }
        let slot = &tasks[i];
        let start = match &slot.window {
            Some(w) => !now.is_before(&w.from) && w.engine == *host && match slot.run_finished {
                Some(finished) => finished,
                None => true,
            },
            None => false,
        };
        if start {
            let ghost before = positions@;
            positions.push(i);
            proof {
                assert(positions@.map_values(|p: usize| p as int) =~= before.map_values(
                    |p: usize| p as int,
                ).push(i as int));
            }
        }
        i += 1;
    }
    assert(tasks@.take(tasks.len() as int) =~= tasks@);
    positions
}

/// One round of the task server at `now`: drops the stale tasks, then picks
/// the positions (among the tasks kept) of those to start on `host`.
pub fn update_tasks(tasks: Vec<TaskSlot>, host: &String, now: Timestamp) -> (r: (
    Vec<TaskSlot>,
    Vec<usize>,
))
    ensures
        r.0@ == tasks@.filter(|s: TaskSlot| is_current(s, now)),
        r.1@.map_values(|p: usize| p as int) == start_positions(r.0@, host@, now),
{
    let kept = cleanup_stale_tasks(tasks, now);
    let positions = tasks_to_start(&kept, host, now);
    (kept, positions)
}

proof fn lemma_start_positions(tasks: Seq<TaskSlot>, host: Seq<char>, now: Timestamp, k: int)
    requires
        0 <= k < start_positions(tasks, host, now).len(),
    ensures
        0 <= start_positions(tasks, host, now)[k] < tasks.len(),
        should_start(tasks[start_positions(tasks, host, now)[k]], host, now),
    decreases tasks.len(),
{
    let rest = start_positions(tasks.drop_last(), host, now);
    if k < rest.len() {
        lemma_start_positions(tasks.drop_last(), host, now, k);
    }
}

/// Every task that a round starts is current: its window has begun and has
/// not ended, it belongs to the engine, and no run of it is going on.
pub proof fn law_started_tasks_are_current(tasks: Seq<TaskSlot>, host: Seq<char>, now: Timestamp, k: int)
    requires
        0 <= k < start_positions(tasks.filter(|s: TaskSlot| is_current(s, now)), host, now).len(),
    ensures
        ({
            let kept = tasks.filter(|s: TaskSlot| is_current(s, now));
            let slot = kept[start_positions(kept, host, now)[k]];
            &&& slot.window matches Some(w)
            &&& w.from@ <= now@ < w.to@
            &&& w.engine@ == host
            &&& slot.run_finished != Some(false)
        }),
{
    let kept = tasks.filter(|s: TaskSlot| is_current(s, now));
    lemma_start_positions(kept, host, now, k);
    tasks.lemma_filter_pred(|s: TaskSlot| is_current(s, now), start_positions(kept, host, now)[k]);
}

} // verus!
