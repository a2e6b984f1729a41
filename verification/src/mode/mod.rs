//! The ways in which the settings of a project are gathered.

pub mod wizard;
