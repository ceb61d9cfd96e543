//! Shared definitions of the audio cloud: identifiers, models, instance state,
//! time ranges and the binary page codec used by instance drivers.
use vstd::prelude::*;

pub mod byte_order;
pub mod bin_page;
pub mod text;
pub mod ids;
pub mod model;
pub mod instance;
pub mod media;
pub mod time;
pub mod domains;
pub mod cloud;
pub mod engine;
pub mod domain_tasks;
pub mod streaming;
pub mod instance_driver;
pub mod error;
pub mod generated;
pub mod manufacturers;
pub mod elysia;
pub mod probe;
pub mod allocation;
pub mod instance_control;
pub mod task_schedule;
pub mod rt_subscriptions;

verus! {

} // verus!
