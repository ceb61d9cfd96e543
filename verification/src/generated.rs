//! Presets, parameters and reports of the known models that hold no numbers
//! with fractions.
use vstd::prelude::*;

verus! {

#[derive(Clone, Debug, PartialEq)]
pub struct Insert1X1Preset {}

#[derive(Clone, Debug, Default, PartialEq)]
pub struct Insert1X1Parameters {}

#[derive(Clone, Debug, PartialEq)]
pub struct Insert24X2Preset {}

#[derive(Clone, Debug, Default, PartialEq)]
pub struct Insert24X2Parameters {}

#[derive(Clone, Debug, PartialEq)]
pub struct Insert2X2Preset {}

#[derive(Clone, Debug, Default, PartialEq)]
pub struct Insert2X2Parameters {}

#[derive(Clone, Debug, Default, PartialEq)]
pub struct Dual1084Reports {}

#[derive(Clone, Debug, Default, PartialEq)]
pub struct SummatraReports {}

#[derive(Clone, Debug, PartialEq)]
pub struct PowerPdu4CPreset {
    pub power: Vec<bool>,
}

#[derive(Clone, Debug, Default, PartialEq)]
pub struct PowerPdu4CParameters {
    pub power: Option<Vec<bool>>,
}

} // verus!
