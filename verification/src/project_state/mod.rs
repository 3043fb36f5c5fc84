//! The projection of a project's records: the live part for scheduling, the
//! repair of a cached one, and its queries.
pub mod active_goals;
pub mod incremental;
pub mod ordering;
pub mod query;
