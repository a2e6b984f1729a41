//! What the commands make of their arguments before anything is written.

use crate::args::{InitArgs, NewArgs};
use crate::config::QuickstartConfig;
use crate::errors::ErrorReport;
use crate::text::concat;
use crate::ProjectType;
use vstd::prelude::*;

verus! {

/// The project type that the arguments of `new` ask for: the library where
/// it is asked for, and the binary otherwise.
pub open spec fn new_project_type(args: NewArgs) -> ProjectType {
    if args.lib {
        ProjectType::Library
    } else {
        ProjectType::Binary
    }
}

/// The directory that `new` creates: the path among the arguments, and the
/// name of the project where there is none.
pub open spec fn new_project_path(args: NewArgs) -> Seq<char> {
    match args.path {
        Some(path) => path@,
        None => args.name@,
    }
}

/// Whether `config` is the configuration of a project with the given name,
/// type, edition, license, git setting, path and acceptance of defaults, and
/// with nothing else set.
pub open spec fn plain_config(
    config: QuickstartConfig,
    name: Seq<char>,
    project_type: ProjectType,
    edition: Seq<char>,
    license: Seq<char>,
    git: bool,
    path: Seq<char>,
    yes: bool,
) -> bool {
    &&& config.name@ == name
    &&& config.project_type == project_type
    &&& config.edition@ == edition
    &&& config.license@ == license
    &&& config.git == git
    &&& config.path@ == path
    &&& config.yes == yes
    &&& config.description is None
    &&& config.author is None
    &&& config.features is None
    &&& config.plugins is None
    &&& !config.dry_run
    &&& config.template_variant is None
}

/// The configuration that `new` generates a project from.
pub fn new_config(args: &NewArgs) -> (config: QuickstartConfig)
    ensures
        plain_config(
            config,
            args.name@,
            new_project_type(*args),
            args.edition@,
            args.license@,
            args.git,
            new_project_path(*args),
            args.yes,
        ),
{
    let project_type = if args.lib {
        ProjectType::Library
    } else {
        ProjectType::Binary
    };
    let path = match &args.path {
        Some(path) => path.clone(),
        None => args.name.clone(),
    };
    QuickstartConfig {
        name: args.name.clone(),
        project_type,
        edition: args.edition.clone(),
        license: args.license.clone(),
        git: args.git,
        path,
        yes: args.yes,
        description: None,
        author: None,
        features: None,
        plugins: None,
        dry_run: false,
        template_variant: None,
    }
}

/// The configuration that `init` generates a project from, once name and
/// type are settled.
pub fn init_config(args: &InitArgs, project_name: String, project_type: ProjectType) -> (config:
    QuickstartConfig)
    ensures
        plain_config(
            config,
            project_name@,
            project_type,
            args.edition@,
            args.license@,
            args.git,
            args.path@,
            args.yes,
        ),
{
    QuickstartConfig {
        name: project_name,
        project_type,
        edition: args.edition.clone(),
        license: args.license.clone(),
        git: args.git,
        path: args.path.clone(),
        yes: args.yes,
        description: None,
        author: None,
        features: None,
        plugins: None,
        dry_run: false,
        template_variant: None,
    }
}

/// The failure of `new` where the directory to create is already there.
pub fn existing_target(path: &str) -> (report: ErrorReport)
    ensures
        report.text() == "Target directory '"@ + path@ + "' already exists. Refusing to overwrite."@,
        report.notes().len() == 0,
{
    ErrorReport::msg(
        concat(
            concat("Target directory '", path).as_str(),
            "' already exists. Refusing to overwrite.",
        ).as_str(),
    )
}

/// The failure of the generation where the parent of the directory to
/// create is not there.
pub fn missing_parent(parent: &str) -> (report: ErrorReport)
    ensures
        report.text() == "Parent directory '"@ + parent@
            + "' does not exist. Please create it first."@,
        report.notes().len() == 0,
{
    ErrorReport::msg(
        concat(
            concat("Parent directory '", parent).as_str(),
            "' does not exist. Please create it first.",
        ).as_str(),
    )
}

} // verus!
