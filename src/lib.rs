//! Variable bridge and aspect scheduling between a simulation host and an
//! aircraft systems model.
//!
//! A [`SimulationBuilder`] collects the host variables the model reads, the
//! electrical wiring, the failure bindings and the synchronization rules of
//! independent aspects; `build` validates them and makes the model. The
//! resulting [`Simulation`] handles host events one at a time: pre-tick
//! rules, one model step, post-tick rules.
use vstd::prelude::*;

pub mod a320;
pub mod aspect;
pub mod builder;
pub mod error;
pub mod failures;
pub mod rules;
pub mod simulation;
pub mod store;
pub mod variable;

pub use a320::{a320_aspect, a320_builder};
pub use aspect::Aspect;
pub use builder::SimulationBuilder;
pub use error::BridgeError;
pub use failures::{FailureState, FailureType, HydraulicColor};
pub use rules::{ExecuteOn, Transform};
pub use simulation::{Aircraft, ElectricalBusBinding, Simulation, SimulationEvent};
pub use store::VariableStore;
pub use variable::Variable;

verus! {

} // verus!
