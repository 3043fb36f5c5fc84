//! What holds of the library's operations, stated on what goes into them and
//! what comes out.
pub mod authoring;
pub mod bulking;
pub mod claiming;
pub mod cleaning;
pub mod editing;
pub mod fencing;
pub mod identifying;
pub mod listing;
pub mod locating;
pub mod merging;
pub mod owning;
pub mod placing;
pub mod recommending;
pub mod registering;
pub mod repairing;
pub mod reverting;
pub mod scheduling;
pub mod showing;
pub mod stopping;
pub mod terminating;
pub mod texts;
pub mod values;
