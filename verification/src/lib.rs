//! Project scaffolding from a library of text templates: which templates apply
//! to a project, where each one lands in the generated tree, and how its body
//! is rendered.

pub mod args;
pub mod catalog;
pub mod commands;
pub mod config;
pub mod doctor;
pub mod errors;
pub mod generate;
pub mod init;
pub mod mode;
pub mod paths;
pub mod template;
pub mod text;
pub mod tools;
pub mod tui;
pub mod ui;

use crate::config::QuickstartConfig;
use crate::generate::{coherent, requests, GenerateStage, GenerateStep, Generation};
use crate::paths::{join, join_path, parent_dir, parent_of};
use vstd::prelude::*;

verus! {

/// Project type (binary or library).
#[derive(Debug, Clone, Copy, PartialEq, Eq, Structural)]
pub enum ProjectType {
    /// A binary application.
    Binary,
    /// A library crate.
    Library,
}

impl ProjectType {
    /// The name of the directory that holds the templates of this project type.
    pub open spec fn dir_name(self) -> Seq<char> {
        match self {
            ProjectType::Binary => "binary"@,
            ProjectType::Library => "library"@,
        }
    }

    /// What the project type is called in messages.
    pub open spec fn label_text(self) -> Seq<char> {
        match self {
            ProjectType::Binary => "Binary application"@,
            ProjectType::Library => "Library crate"@,
        }
    }

    /// The name of the directory that holds the templates of this project type.
    pub fn directory(&self) -> (name: &'static str)
        ensures
            name@ == self.dir_name(),
    {
        match self {
            ProjectType::Binary => "binary",
            ProjectType::Library => "library",
        }
    }

    /// What the project type is called in messages.
    pub fn label(&self) -> (text: &'static str)
        ensures
            text@ == self.label_text(),
    {
        match self {
            ProjectType::Binary => "Binary application",
            ProjectType::Library => "Library crate",
        }
    }
}

/// The search for the directory `templates`, from a directory upwards.
#[derive(Debug, Clone, PartialEq, Eq)]
pub struct TemplatesSearch {
    dir: String,
}

impl TemplatesSearch {
    /// The directory at which the search stands.
    pub closed spec fn at(&self) -> Seq<char> {
        self.dir@
    }

    /// The directory that would be the template directory, if it is there:
    /// the one called `templates` in the directory of the search.
    pub fn candidate(&self) -> (path: String)
        ensures
            path@ == join_path(self.at(), "templates"@),
    {
        join(self.dir.as_str(), "templates")
    }

    /// Moves the search to the directory above, if there is one. The path of
    /// that directory is shorter, so the search comes to an end.
    pub fn ascend(self) -> (above: Option<TemplatesSearch>)
        ensures
            match above {
                Some(next) => parent_of(self.at()) == Some(next.at()) && next.at().len()
                    < self.at().len(),
                None => parent_of(self.at()) is None,
            },
    {
        match parent_dir(self.dir.as_str()) {
            Some(dir) => Some(TemplatesSearch { dir }),
            None => None,
        }
    }

    /// Takes the answer to the probe of the candidate, whether a directory is
    /// there, and says how the search goes on: it has found the candidate,
    /// moves to the directory above, or ends where there is none.
    pub fn step(self, is_dir: bool) -> (next: SearchStep)
        ensures
            match next {
                SearchStep::Found(path) => is_dir && path@ == join_path(self.at(), "templates"@),
                SearchStep::Probe(above) => !is_dir && parent_of(self.at()) == Some(above.at())
                    && above.at().len() < self.at().len(),
                SearchStep::NotFound => !is_dir && parent_of(self.at()) is None,
            },
    {
        if is_dir {
            SearchStep::Found(self.candidate())
        } else {
            match self.ascend() {
                Some(above) => SearchStep::Probe(above),
                None => SearchStep::NotFound,
            }
        }
    }
}

/// What the search for the directory `templates` comes to once a probe of
/// its candidate has been answered.
#[derive(Debug, Clone, PartialEq, Eq)]
pub enum SearchStep {
    /// The candidate is no directory: probe that of the directory above.
    Probe(TemplatesSearch),
    /// The candidate is a directory: this is its path.
    Found(String),
    /// The candidate is no directory and there is no directory above.
    NotFound,
}

/// What the search is to say where it ends without a find.
pub open spec fn not_found_text() -> Seq<char> {
    "Could not find a 'templates/' directory in this or any parent directory."@
}

impl SearchStep {
    /// The message for a search that found nothing.
    pub fn not_found_message() -> (text: &'static str)
        ensures
            text@ == not_found_text(),
    {
        "Could not find a 'templates/' directory in this or any parent directory."
    }
}

/// Begins the search for the nearest directory `templates` at the directory
/// `start`: the caller probes the candidate and moves up until it is found or
/// there is no directory above.
pub fn find_templates_dir(start: &str) -> (search: TemplatesSearch)
    ensures
        search.at() == start@,
{
    TemplatesSearch { dir: start.to_owned() }
}

/// Begins the generation of the project that `config` describes, and says
/// what the caller is to do first.
pub fn generate_project(config: QuickstartConfig) -> (started: (Generation, GenerateStep))
    ensures
        started.0@.config == config,
        started.0@.stage == if parent_of(config.path@) is Some {
            GenerateStage::CheckParent
        } else {
            GenerateStage::AskWorkingDir
        },
        coherent(started.0@),
        requests(started.0@, started.1),
{
    Generation::begin(config)
}

/// The settings of one project as the command line gives them.
#[derive(Debug)]
pub struct Config {
    /// Name of the project.
    pub name: String,
    /// Whether a binary was asked for.
    pub bin: bool,
    /// Whether a library was asked for.
    pub lib: bool,
    /// Rust edition.
    pub edition: String,
    /// License identifier.
    pub license: String,
    /// Whether to initialise a Git repository.
    pub git: bool,
    /// Target path.
    pub path: String,
    /// Accept all defaults without prompting.
    pub yes: bool,
}

} // verus!
