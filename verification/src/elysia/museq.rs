//! The Elysia museq.
use vstd::prelude::*;
use vstd::string::StringExecFns;

use crate::ids::ModelId;
use crate::manufacturers::Manufacturers;

verus! {

/// Id of the model.
pub fn distopik_dual_1084_id() -> (id: ModelId)
    ensures
        id.manufacturer@ == "elysia"@,
        id.name@ == "museq"@,
{
    ModelId::new(Manufacturers::Elysia.to_string(), String::from_str("museq"))
}

} // verus!
