//! Types of the price-triggered automation pallet: its one kind of action
//! (an XCMP call) and the statistics it keeps.
use vstd::prelude::*;

use crate::time_slots::Error;
use crate::weight::Weight;
use crate::xcm::{AssetPayment, InstructionSequence};

verus! {

/// What a price-triggered task does when it runs: send a call to another chain.
#[derive(Clone, Debug, PartialEq, Eq)]
pub enum Action<AccountId> {
    XCMP {
        destination: staging_xcm::latest::Location,
        schedule_fee: staging_xcm::latest::Location,
        execution_fee: AssetPayment,
        encoded_call: Vec<u8>,
        encoded_call_weight: Weight,
        overall_weight: Weight,
        schedule_as: Option<AccountId>,
        instruction_sequence: InstructionSequence,
    },
}

impl<AccountId> Action<AccountId> {
    /// The computation time of running the action: that of running an XCMP
    /// task, `run_xcmp_task_weight`, which the pallet's weights give.
    pub fn execution_weight(&self, run_xcmp_task_weight: Weight) -> (r: Result<u64, Error>)
        ensures
            r == Ok::<u64, Error>(run_xcmp_task_weight.ref_time),
    {
        let weight = match self {
            Action::XCMP { .. } => run_xcmp_task_weight,
        };
        Ok(weight.ref_time())
    }

    /// The location in which the schedule fee is paid.
    pub fn schedule_fee_location(&self) -> (r: staging_xcm::latest::Location)
        ensures
            self matches Action::XCMP { schedule_fee, .. } && r == schedule_fee,
    {
        match self {
            Action::XCMP { schedule_fee, .. } => schedule_fee.clone(),
        }
    }
}

/// The kinds of count that the pallet keeps.
#[derive(Clone, Copy, Debug, PartialEq, Eq, Structural)]
pub enum StatType {
    TotalTasksOverall,
    TotalTasksPerAccount,
}

} // verus!
