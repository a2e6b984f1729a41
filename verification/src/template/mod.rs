//! Templates: where they are found, where they land, and how they are rendered.

pub mod engine;
pub mod loader;
pub mod tree;
pub mod variables;
pub mod walk;

pub use engine::TemplateEngine;
pub use loader::TemplateLoader;
pub use variables::TemplateVariables;
pub use walk::{DirEntry, TemplateWalk, WalkEvent, WalkStage, WalkStep};

use crate::text::concat;
use vstd::prelude::*;

verus! {

/// A failure of the renderer; it is carried through as it came.
#[verifier::external_type_specification]
#[verifier::external_body]
pub struct ExRenderError(handlebars::RenderError);

/// A failure of the operating system; it is carried through as it came.
#[verifier::external_type_specification]
#[verifier::external_body]
pub struct ExIoError(std::io::Error);

/// Which set of templates to use.
#[derive(Debug, Clone, Copy, PartialEq, Eq, Structural)]
pub enum TemplateVariant {
    /// Essential files only.
    Minimal,
    /// Full-featured setup with additional tooling.
    Extended,
}

impl Default for TemplateVariant {
    fn default() -> (variant: Self)
        ensures
            variant == TemplateVariant::Extended,
    {
        TemplateVariant::Extended
    }
}

impl TemplateVariant {
    /// The name of the directory that holds the templates of this variant.
    pub open spec fn dir_name(self) -> Seq<char> {
        match self {
            TemplateVariant::Minimal => "minimal"@,
            TemplateVariant::Extended => "extended"@,
        }
    }

    /// The name of the directory that holds the templates of this variant.
    pub fn directory(&self) -> (name: &'static str)
        ensures
            name@ == self.dir_name(),
    {
        match self {
            TemplateVariant::Minimal => "minimal",
            TemplateVariant::Extended => "extended",
        }
    }
}

/// What can go wrong with a template.
#[allow(inconsistent_fields)]
#[derive(Debug)]
pub enum TemplateError {
    /// A template or a template directory could not be read.
    LoadError {
        /// The path that was read.
        path: String,
        /// The failure that the operating system reported.
        source: std::io::Error,
    },
    /// A template could not be rendered.
    RenderError {
        /// The name of the template.
        name: String,
        /// The failure that the renderer reported.
        source: handlebars::RenderError,
    },
    /// A template or a template directory does not exist.
    TemplateNotFound {
        /// The path that was looked for.
        path: String,
    },
}

impl TemplateError {
    /// What the message of the error begins with: the kind of failure and
    /// the path or name that it concerns.
    pub open spec fn headline(self) -> Seq<char> {
        match self {
            TemplateError::LoadError { path, .. } => "Failed to load template at "@ + path@,
            TemplateError::RenderError { name, .. } => "Failed to render template "@ + name@,
            TemplateError::TemplateNotFound { path } => "Template not found: "@ + path@,
        }
    }

    /// The message of the error: the headline, followed for a load error and
    /// for a render error by a colon and the words of the failure behind it.
    pub fn message(&self) -> (text: String)
        ensures
            self.headline().is_prefix_of(text@),
            self is TemplateNotFound ==> text@ == self.headline(),
    {
        match self {
            TemplateError::LoadError { path, source } => {
                let mut text = concat("Failed to load template at ", path.as_str());
                text.push_str(": ");
                text.push_str(source.to_string().as_str());
                text
            },
            TemplateError::RenderError { name, source } => {
                let mut text = concat("Failed to render template ", name.as_str());
                text.push_str(": ");
                text.push_str(source.to_string().as_str());
                text
            },
            TemplateError::TemplateNotFound { path } => concat("Template not found: ", path.as_str()),
        }
    }
}

} // verus!
