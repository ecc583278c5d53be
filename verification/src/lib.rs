//! Chore tracking: a store of chores that are due and then resolved into one
//! of three terminal dispositions, with the lifecycle verified.

pub mod chore;
pub mod greeting;
pub mod store;
