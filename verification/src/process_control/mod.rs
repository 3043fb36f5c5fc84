//! Stopping processes and cancelling workflow executions.
pub mod ownership;
pub mod protocol;
pub mod receipts;
pub mod termination;
