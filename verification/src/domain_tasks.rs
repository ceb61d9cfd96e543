//! Domain API responses about tasks.
use vstd::prelude::*;

use crate::ids::AppTaskId;

verus! {

/// Response to creating a task on the domain
pub enum TaskCreated {
    /// Created normally
    Created {
        /// Task Id
        task_id: AppTaskId,
    },
}

/// Response to modifying a task on the domain
#[derive(Clone, Debug)]
pub enum TaskUpdated {
    /// Updated normally
    Updated {
        /// Task Id
        task_id: AppTaskId,
        /// New version to be used with `If-Matches` when submitting further modifications
        revision: u64,
    },
    /// Did not update because a newer revision was specified and update is optional
    Ignored {
        /// Task Id
        task_id: AppTaskId,
        /// Current version to be used with `If-Matches` when submitting further modifications
        revision: u64,
    },
}

pub enum TaskDeleted {
    Deleted { id: AppTaskId },
}

} // verus!
