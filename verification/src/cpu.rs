//! The processor's controls.

use vstd::prelude::*;

verus! {

/// What a processor offers.
#[derive(Debug, Clone, PartialEq)]
pub struct CpuInfo {
    pub model: String,
    pub available_governors: Vec<String>,
    pub available_epp: Vec<String>,
    /// The rest of what it offers, carried along as text.
    pub rest: String,
}

/// The processor state a profile asks for, or the kernel reports.
#[derive(Debug, Clone, PartialEq, Default)]
pub struct CpuControlState {
    pub governor: String,
    pub epp: Option<String>,
    pub boost: Option<bool>,
    /// The settings beside these, carried along as text.
    pub rest: String,
}

} // verus!
