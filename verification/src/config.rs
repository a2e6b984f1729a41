//! The configuration that drives the generation of one project.

use crate::ProjectType;
use vstd::prelude::*;

verus! {

/// Author information for the project.
#[derive(Debug, Clone)]
pub struct Author {
    /// Author's full name.
    pub name: String,
    /// Author's email address (optional).
    pub email: Option<String>,
}

impl Default for Author {
    fn default() -> (author: Self)
        ensures
            author.name@ == Seq::<char>::empty(),
            author.email is None,
    {
        Author { name: String::new(), email: None }
    }
}

/// Template variant selection for project scaffolding.
#[derive(Debug, Clone, Copy, PartialEq, Eq, Structural)]
pub enum TemplateVariant {
    /// Minimal template set.
    Minimal,
    /// Extended template set (default).
    Extended,
}

impl Default for TemplateVariant {
    fn default() -> (variant: Self)
        ensures
            variant == TemplateVariant::Extended,
    {
        TemplateVariant::Extended
    }
}

/// Canonical configuration for project scaffolding.
#[derive(Debug, Clone)]
pub struct QuickstartConfig {
    /// Name of the project (valid Rust crate name).
    pub name: String,
    /// Project type (binary or library).
    pub project_type: ProjectType,
    /// Rust edition (e.g., "2021").
    pub edition: String,
    /// License identifier (e.g., "MIT", "Apache-2.0").
    pub license: String,
    /// Whether to initialise a Git repository.
    pub git: bool,
    /// Target path for project generation.
    pub path: String,
    /// Accept all defaults without prompting.
    pub yes: bool,
    /// Optional project description.
    pub description: Option<String>,
    /// Author information (optional).
    pub author: Option<Author>,
    /// Optional list of features to include (e.g., README, CI, VSCode).
    pub features: Option<Vec<String>>,
    /// Optional list of plugins to enable.
    pub plugins: Option<Vec<String>>,
    /// Enable dry-run mode (preview changes without writing to disk).
    pub dry_run: bool,
    /// Template variant to use (minimal or extended).
    pub template_variant: Option<TemplateVariant>,
}

impl Default for QuickstartConfig {
    fn default() -> (config: Self)
        ensures
            config.name@ == Seq::<char>::empty(),
            config.project_type == ProjectType::Binary,
            config.edition@ == "2021"@,
            config.license@ == "MIT OR Apache-2.0"@,
            !config.git,
            config.path@ == Seq::<char>::empty(),
            !config.yes,
            config.description is None,
            config.author is None,
            config.features is None,
            config.plugins is None,
            !config.dry_run,
            config.template_variant == Some(TemplateVariant::Extended),
    {
        QuickstartConfig {
            name: String::new(),
            project_type: ProjectType::Binary,
            edition: "2021".to_owned(),
            license: "MIT OR Apache-2.0".to_owned(),
            git: false,
            path: String::new(),
            yes: false,
            description: None,
            author: None,
            features: None,
            plugins: None,
            dry_run: false,
            template_variant: Some(TemplateVariant::Extended),
        }
    }
}

} // verus!
