//! Setting up a project in an existing directory: the questions that are
//! asked, and what is made of the answers.

pub mod config;
pub mod inquire_api;
pub mod interactive;

pub use inquire_api::{InquireApi, TestInquire};
