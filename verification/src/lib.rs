//! A declarative command-execution controller: the resource model of a plan
//! and the decisions of its reconciliation cycle.

pub mod execution;
pub mod lifecycle;
pub mod model;
pub mod reconciler;
