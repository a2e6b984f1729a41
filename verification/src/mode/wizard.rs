//! The wizard: it asks for every setting of a project in turn and makes the
//! configuration of the answers.

use crate::args::{InitArgs, NewArgs};
use crate::config::{Author, QuickstartConfig, TemplateVariant};
use crate::errors::{CliError, ErrorReport};
use crate::init::inquire_api::InquireApi;
use crate::text::concat;
use crate::ui::prompts::project_name;
use crate::ProjectType;
use vstd::prelude::*;

verus! {

/// Arguments that every command that creates a project has.
pub trait CommonArgs {
    /// Whether all defaults are accepted without prompting.
    spec fn yes(&self) -> bool;

    /// Whether all defaults are accepted without prompting.
    fn get_yes(&self) -> (yes: bool)
        ensures
            yes == self.yes(),
    ;
}

impl CommonArgs for NewArgs {
    open spec fn yes(&self) -> bool {
        self.yes
    }

    fn get_yes(&self) -> (yes: bool) {
        self.yes
    }
}

impl CommonArgs for InitArgs {
    open spec fn yes(&self) -> bool {
        self.yes
    }

    fn get_yes(&self) -> (yes: bool) {
        self.yes
    }
}

/// The editions that the wizard offers.
pub open spec fn wizard_editions() -> Seq<Seq<char>> {
    seq!["2021"@, "2024"@]
}

/// The licenses that the wizard can set: those on offer, and none.
pub open spec fn wizard_licenses() -> Seq<Seq<char>> {
    seq!["MIT OR Apache-2.0"@, "MIT"@, "Apache-2.0"@, ""@]
}

/// What the wizard makes of an answer that may be left empty: the default
/// for an empty answer, and the answer otherwise.
pub fn or_default(answer: String, default: &str) -> (value: String)
    ensures
        value@ == if answer@.len() == 0 {
            default@
        } else {
            answer@
        },
{
    if answer.as_str().is_empty() {
        default.to_owned()
    } else {
        answer
    }
}

/// The project type at an index of the list of project types.
pub fn wizard_project_type(idx: usize) -> (project_type: Option<ProjectType>)
    ensures
        project_type == if idx == 0 {
            Some(ProjectType::Binary)
        } else if idx == 1 {
            Some(ProjectType::Library)
        } else {
            None
        },
{
    match idx {
        0 => Some(ProjectType::Binary),
        1 => Some(ProjectType::Library),
        _ => None,
    }
}

/// The edition at an index of the list of editions.
pub fn wizard_edition(idx: usize) -> (edition: Option<&'static str>)
    ensures
        match edition {
            Some(text) => idx < wizard_editions().len() && text@ == wizard_editions()[idx as int],
            None => idx >= wizard_editions().len(),
        },
{
    match idx {
        0 => Some("2021"),
        1 => Some("2024"),
        _ => None,
    }
}

/// The license for an index of the list of licenses; the last entry of the
/// list stands for no license, which is the empty text.
pub fn wizard_license(idx: usize) -> (license: Option<&'static str>)
    ensures
        match license {
            Some(text) => idx < wizard_licenses().len() && text@ == wizard_licenses()[idx as int],
            None => idx >= wizard_licenses().len(),
        },
{
    match idx {
        0 => Some("MIT OR Apache-2.0"),
        1 => Some("MIT"),
        2 => Some("Apache-2.0"),
        3 => Some(""),
        _ => None,
    }
}

/// The variant at an index of the list of variants: the extended one first.
pub fn wizard_variant(idx: usize) -> (variant: Option<TemplateVariant>)
    ensures
        variant == if idx == 0 {
            Some(TemplateVariant::Extended)
        } else if idx == 1 {
            Some(TemplateVariant::Minimal)
        } else {
            None
        },
{
    match idx {
        0 => Some(TemplateVariant::Extended),
        1 => Some(TemplateVariant::Minimal),
        _ => None,
    }
}

/// The failure of the wizard for the failure of a prompt.
pub fn prompt_failure(report: ErrorReport) -> (error: CliError)
    ensures
        error matches CliError::InquireError(text) && text@ == report.text(),
{
    CliError::InquireError(report.message().to_owned())
}

fn out_of_range() -> (error: CliError)
    ensures
        error matches CliError::InquireError(text) && text@
            == "Selected value not found in options list"@,
{
    CliError::InquireError("Selected value not found in options list".to_owned())
}

fn ask<T: InquireApi>(inquire_api: &mut T, message: &str, default: &str) -> (answer: Result<
    String,
    CliError,
>)
    ensures
        match answer {
            Ok(text) => text@.len() > 0 || text@ == default@,
            Err(error) => error is InquireError,
        },
{
    match inquire_api.text(message, Some(default)) {
        Ok(answer) => Ok(or_default(answer, default)),
        Err(report) => Err(prompt_failure(report)),
    }
}

/// Whether `outcome` is what the wizard makes of the answer to a prompt: the
/// answer itself, or the failure of the wizard for the failure of the prompt.
pub open spec fn is_prompt_outcome<V>(
    answer: Result<V, ErrorReport>,
    outcome: Result<V, CliError>,
) -> bool {
    match answer {
        Ok(value) => outcome == Ok::<V, CliError>(value),
        Err(report) => outcome matches Err(CliError::InquireError(text)) && text@
            == report.text(),
    }
}

/// Makes the outcome of the wizard of the answer to a prompt.
pub fn prompt_outcome<V>(answer: Result<V, ErrorReport>) -> (outcome: Result<V, CliError>)
    ensures
        is_prompt_outcome(answer, outcome),
{
    match answer {
        Ok(value) => Ok(value),
        Err(report) => Err(prompt_failure(report)),
    }
}

fn choose_one<T: InquireApi>(inquire_api: &mut T, message: &str, options: &[&str]) -> (chosen:
    Result<usize, CliError>)
    ensures
        exists|selected: Result<usize, ErrorReport>| #[trigger] is_prompt_outcome(selected, chosen),
        chosen matches Err(error) ==> error is InquireError,
{
    let selected = inquire_api.select(message, options, None);
    let ghost answer = selected;
    let chosen = prompt_outcome(selected);
    assert(is_prompt_outcome(answer, chosen));
    chosen
}

/// Runs the wizard: asks for the name, the directory, the type, the edition,
/// the license, git, a description, the author and the variant of a project,
/// and makes the configuration of the answers.
///
/// The directory defaults to one named after the project in the current
/// directory. A description or an author's name that is left empty is left
/// out; the email is asked for only where there is a name. Whether defaults
/// are accepted and whether to run dry come from the caller. The failure of a
/// prompt, and an index that a list does not have, end the wizard.
pub fn run<A: CommonArgs, T: InquireApi>(
    common_args: &A,
    dry_run_flag: bool,
    inquire_api: &mut T,
) -> (outcome: Result<QuickstartConfig, CliError>)
    ensures
        match outcome {
            Ok(config) => {
                &&& config.yes == common_args.yes()
                &&& config.dry_run == dry_run_flag
                &&& config.path@.len() > 0
                &&& wizard_editions().contains(config.edition@)
                &&& wizard_licenses().contains(config.license@)
                &&& config.description matches Some(text) ==> text@.len() > 0
                &&& config.author matches Some(author) ==> author.name@.len() > 0
                &&& config.template_variant is Some
                &&& config.features is None
                &&& config.plugins is None
            },
            Err(error) => error is InquireError,
        },
{
    let name = match project_name(inquire_api, "Enter the project name:") {
        Ok(name) => name,
        Err(report) => {
            return Err(prompt_failure(report));
        },
    };
    let default_path = concat("./", name.as_str());
    proof {
        reveal_strlit("./");
    }
    let path = match ask(inquire_api, "Project directory:", default_path.as_str()) {
        Ok(path) => path,
        Err(error) => {
            return Err(error);
        },
    };
    let type_options = ["Binary", "Library"];
    let project_type = match choose_one(
        inquire_api,
        "Choose project type:",
        type_options.as_slice(),
    ) {
        Ok(idx) => match wizard_project_type(idx) {
            Some(project_type) => project_type,
            None => {
                return Err(out_of_range());
            },
        },
        Err(error) => {
            return Err(error);
        },
    };
    let edition_options = ["2021", "2024"];
    let edition = match choose_one(inquire_api, "Select Rust edition:", edition_options.as_slice()) {
        Ok(idx) => match wizard_edition(idx) {
            Some(edition) => edition.to_owned(),
            None => {
                return Err(out_of_range());
            },
        },
        Err(error) => {
            return Err(error);
        },
    };
    let license_options = ["MIT OR Apache-2.0", "MIT", "Apache-2.0", "None"];
    let license = match choose_one(inquire_api, "Choose a license:", license_options.as_slice()) {
        Ok(idx) => match wizard_license(idx) {
            Some(license) => license.to_owned(),
            None => {
                return Err(out_of_range());
            },
        },
        Err(error) => {
            return Err(error);
        },
    };
    let git = match inquire_api.confirm("Initialize a Git repository?", true) {
        Ok(git) => git,
        Err(report) => {
            return Err(prompt_failure(report));
        },
    };
    let description = match ask(inquire_api, "Project description (optional):", "") {
        Ok(text) => if text.as_str().is_empty() {
            None
        } else {
            Some(text)
        },
        Err(error) => {
            return Err(error);
        },
    };
    let author_name = match ask(inquire_api, "Author's name (optional):", "") {
        Ok(text) => text,
        Err(error) => {
            return Err(error);
        },
    };
    let author = if author_name.as_str().is_empty() {
        None
    } else {
        let email = match ask(inquire_api, "Author's email (optional):", "") {
            Ok(text) => if text.as_str().is_empty() {
                None
            } else {
                Some(text)
            },
            Err(error) => {
                return Err(error);
            },
        };
        Some(Author { name: author_name, email })
    };
    let variant_options = ["Extended", "Minimal"];
    let template_variant = match choose_one(
        inquire_api,
        "Choose template variant:",
        variant_options.as_slice(),
    ) {
        Ok(idx) => match wizard_variant(idx) {
            Some(variant) => variant,
            None => {
                return Err(out_of_range());
            },
        },
        Err(error) => {
            return Err(error);
        },
    };
    Ok(
        QuickstartConfig {
            name,
            project_type,
            edition,
            license,
            git,
            path,
            yes: common_args.get_yes(),
            description,
            author,
            features: None,
            plugins: None,
            dry_run: dry_run_flag,
            template_variant: Some(template_variant),
        },
    )
}

} // verus!
