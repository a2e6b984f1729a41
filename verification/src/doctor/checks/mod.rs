//! The checks of the doctor command.

pub mod dependencies;
pub mod files;
pub mod lints;
pub mod rust;
pub mod templates;

pub use dependencies::DependenciesCheck;
pub use files::FilesCheck;
pub use lints::LintsCheck;
pub use rust::RustToolchainCheck;
pub use templates::TemplatesCheck;
