//! Payloads of the events the user interface receives.

use vstd::prelude::*;

use crate::models::{CheckInConfig, Step};

verus! {

#[derive(Debug, Clone)]
pub struct TimerTickPayload {
    pub remaining_seconds: u32,
    pub step_name: String,
}

#[derive(Debug, Clone)]
pub struct StepChangedPayload {
    pub step: Step,
    pub step_index: usize,
}

#[derive(Debug, Clone)]
pub struct CheckInRequiredPayload {
    pub check_in: CheckInConfig,
    pub step: Step,
}

#[derive(Debug, Clone)]
pub struct CheckInTimeoutPayload {
    pub step_id: String,
}

} // verus!
