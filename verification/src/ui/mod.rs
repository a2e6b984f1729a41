//! What the user is asked and what is accepted as an answer.

pub mod prompts;
