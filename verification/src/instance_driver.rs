//! Errors reported by instance drivers.
use vstd::prelude::*;
use vstd::string::StringExecFns;

use crate::ids::{slash_join, FixedInstanceId};

verus! {

#[derive(Clone, Debug, PartialEq)]
pub enum InstanceDriverError {
    InstanceNotFound { instance: FixedInstanceId },
    ParameterDoesNotExist { error: String },
    ParametersMalformed { error: String },
    ReportsMalformed { error: String },
    ConfigMalformed { error: String },
    IOError { error: String },
    MediaNotPresent,
    NotPowerController,
    NotInterruptable,
    DriverNotSupported { manufacturer: String, name: String },
    RPC { error: String },
}

/// The message of a driver error.
pub open spec fn driver_error_message(e: InstanceDriverError) -> Seq<char> {
    match e {
        InstanceDriverError::InstanceNotFound { instance } => "Instance "@ + slash_join(
            slash_join(instance.manufacturer@, instance.name@),
            instance.instance@,
        ) + " does not exist"@,
        InstanceDriverError::ParameterDoesNotExist { error } => "Parameter "@ + error@
            + " does not exist"@,
        InstanceDriverError::ParametersMalformed { error } => "Parameters are malformed: "@
            + error@,
        InstanceDriverError::ReportsMalformed { error } => "Reports are malformed: "@ + error@,
        InstanceDriverError::ConfigMalformed { error } => "Config is malformed: "@ + error@,
        InstanceDriverError::IOError { error } => "I/O error: "@ + error@,
        InstanceDriverError::MediaNotPresent => "Media is not present, can't play, record or rewind"@,
        InstanceDriverError::NotPowerController => "Instance is not a power controller"@,
        InstanceDriverError::NotInterruptable => "Driver can't guarantee that playback won't be interrupted"@,
        InstanceDriverError::DriverNotSupported { manufacturer, name } => "Driver not found for manufacturer=\u{201d}"@
            + manufacturer@ + "\", name=\""@ + name@ + "\""@,
        InstanceDriverError::RPC { error } => "Remote call failed: "@ + error@,
    }
}

impl InstanceDriverError {
    /// The human readable message of the error.
    pub fn message(&self) -> (m: String)
        ensures
            m@ == driver_error_message(*self),
    {
        match self {
            InstanceDriverError::InstanceNotFound { instance } => {
                let mut m = String::from_str("Instance ");
                let id = instance.to_string();
                m.append(id.as_str());
                m.append(" does not exist");
                m
            },
            InstanceDriverError::ParameterDoesNotExist { error } => {
                let mut m = String::from_str("Parameter ");
                m.append(error.as_str());
                m.append(" does not exist");
                m
            },
            InstanceDriverError::ParametersMalformed { error } => {
                let mut m = String::from_str("Parameters are malformed: ");
                m.append(error.as_str());
                m
            },
            InstanceDriverError::ReportsMalformed { error } => {
                let mut m = String::from_str("Reports are malformed: ");
                m.append(error.as_str());
                m
            },
            InstanceDriverError::ConfigMalformed { error } => {
                let mut m = String::from_str("Config is malformed: ");
                m.append(error.as_str());
                m
            },
            InstanceDriverError::IOError { error } => {
                let mut m = String::from_str("I/O error: ");
                m.append(error.as_str());
                m
            },
            InstanceDriverError::MediaNotPresent => String::from_str(
                "Media is not present, can't play, record or rewind",
            ),
            InstanceDriverError::NotPowerController => String::from_str(
                "Instance is not a power controller",
            ),
            InstanceDriverError::NotInterruptable => String::from_str(
                "Driver can't guarantee that playback won't be interrupted",
            ),
            InstanceDriverError::DriverNotSupported { manufacturer, name } => {
                let mut m = String::from_str("Driver not found for manufacturer=\u{201d}");
                m.append(manufacturer.as_str());
                m.append("\", name=\"");
                m.append(name.as_str());
                m.append("\"");
                m
            },
            InstanceDriverError::RPC { error } => {
                let mut m = String::from_str("Remote call failed: ");
                m.append(error.as_str());
                m
            },
        }
    }
}

} // verus!
