//! Scheduling rules of the automation pallets, with their contracts:
//!
//! - `time_slots`: when a Unix time may carry an execution, and the cleaned
//!   (sorted, repetition-free) form of a list of times;
//! - `schedule`: fixed and recurring schedules, how a requested schedule is
//!   validated, and the laws that validated schedules obey;
//! - `task`: actions, tasks, missed tasks and the bounded list of tasks of a
//!   time slot;
//! - `equality`: equality of schedules, actions and tasks;
//! - `laws`: what the operations are for, stated over all inputs;
//! - `price`: the action and statistics types of the price-triggered pallet;
//! - `convert`: the conversion trait of the test runtimes;
//! - `weight`, `xcm`: weights, and the cross-chain locations that tasks carry;
//! - `mock_time`, `mock_price`, `mock_xcmp_handler`: the configuration and
//!   helper computations of the pallets' test runtimes.
pub mod convert;
pub mod equality;
pub mod laws;
pub mod mock_price;
pub mod mock_time;
pub mod mock_xcmp_handler;
pub mod price;
pub mod schedule;
pub mod task;
pub mod time_slots;
pub mod weight;
pub mod xcm;
