//! Text utilities that templates can call by name.

pub mod helpers;

pub use helpers::{
    to_kebab_case, to_snake_case, HelperError, HelperParam, KebabCaseHelper, LowercaseHelper,
    SnakeCaseHelper, TemplateHelper, UppercaseHelper,
};
