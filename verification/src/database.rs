//! The song library kept in SQLite: its rows, the statements that write them,
//! and the plan by which a scan of the local files is brought into it.

pub mod builders;
pub mod entities;
pub mod plan;
pub mod sync;
