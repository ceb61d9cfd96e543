//! Responses of the audio engine to task, media and instance requests.
use std::collections::HashMap;
use vstd::prelude::*;

use crate::ids::{AppTaskId, FixedInstanceId};
use crate::instance::{PlayId, RenderId};

verus! {

#[derive(Debug)]
pub enum TaskReplaced {
    Updated { task_id: AppTaskId },
    Created { task_id: AppTaskId },
}

#[derive(Debug)]
pub enum TaskModified {
    Modified { task_id: AppTaskId },
}

#[derive(Debug)]
pub enum TaskDeleted {
    Deleted { task_id: AppTaskId },
}

#[derive(Debug)]
pub enum TaskSought {
    Sought { task_id: AppTaskId, play_id: PlayId },
}

#[derive(Debug)]
pub enum MediaUpdated {
    Updated { added: usize, replaced: usize, deleted: usize },
}

/// Where the inputs and outputs of a fixed instance sit on an engine.
#[derive(Debug)]
pub struct EngineFixedInstance {
    pub input_start: u32,
    pub output_start: u32,
    pub num_inputs: u32,
    pub num_outputs: u32,
}

/// The fixed instances of an engine.
#[derive(Debug)]
pub struct SetInstances {
    instances: HashMap<FixedInstanceId, EngineFixedInstance>,
}

impl SetInstances {
    /// Wraps the given instances.
    pub fn new(instances: HashMap<FixedInstanceId, EngineFixedInstance>) -> (s: Self)
        ensures
            s.instances() == instances,
    {
        SetInstances { instances }
    }

    /// The instances.
    pub closed spec fn instances(self) -> HashMap<FixedInstanceId, EngineFixedInstance> {
        self.instances
    }
}

#[derive(Debug)]
pub enum InstancesUpdated {
    Updated { added: usize, replaced: usize, deleted: usize },
}

#[derive(Debug)]
pub enum TaskRendering {
    Rendering { task_id: AppTaskId, render_id: RenderId },
}

#[derive(Debug)]
pub enum TaskPlaying {
    Playing { task_id: AppTaskId, play_id: PlayId },
}

#[derive(Debug)]
pub enum TaskMixerChanged {
    Changed { task_id: AppTaskId, play_id: PlayId },
}

#[derive(Debug)]
pub enum TaskPlayStopped {
    Stopped { task_id: AppTaskId, play_id: PlayId },
}

#[derive(Debug)]
pub enum TaskRenderCancelled {
    Cancelled { task_id: AppTaskId, render_id: RenderId },
}

} // verus!
