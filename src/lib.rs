//! Small, self-contained lessons in ownership and dispatch, each stated
//! with contracts and checked by Verus.

pub mod list;
pub mod structs;
pub mod lifetimes;
pub mod errors;
pub mod inversion;
pub mod reflection;
pub mod multiple_realization;
