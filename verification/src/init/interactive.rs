//! The interactive wizard: the questions it asks, in order, and the
//! configuration it makes of the answers.

use crate::config::QuickstartConfig;
use crate::errors::ErrorReport;
use crate::init::inquire_api::InquireApi;
use crate::text::{chars_of, concat, trimmed};
use crate::ProjectType;
use vstd::prelude::*;

verus! {

/// The editions that the wizard offers, in the order of the list.
pub open spec fn edition_options() -> Seq<Seq<char>> {
    seq!["2021"@, "2018"@, "2015"@]
}

/// The licenses that the wizard offers, in the order of the list; the last
/// entry asks for an identifier of the user's own.
pub open spec fn license_options() -> Seq<Seq<char>> {
    seq![
        "MIT OR Apache-2.0"@,
        "MIT"@,
        "Apache-2.0"@,
        "GPL-3.0"@,
        "BSD-3-Clause"@,
        "Unlicense"@,
        "Custom"@,
    ]
}

/// The optional features that the wizard offers, in the order of the list.
pub open spec fn feature_options() -> Seq<Seq<char>> {
    seq![
        "README.md"@,
        ".gitignore"@,
        "CONTRIBUTING.md"@,
        "CI configuration"@,
        "VS Code configuration"@,
        "benchmarks"@,
        "examples"@,
    ]
}

/// Whether a project name passes the wizard: without the whitespace at its
/// ends it is not empty and does not start with a digit.
pub open spec fn acceptable_name(input: Seq<char>) -> bool {
    let name = trimmed(input);
    name.len() > 0 && !('0' <= name[0] <= '9')
}

/// Tells whether a project name passes the wizard.
pub fn is_acceptable_name(input: &str) -> (accepted: bool)
    ensures
        accepted == acceptable_name(input@),
{
    let name = chars_of(input.trim());
    name.len() > 0 && !('0' <= name[0] && name[0] <= '9')
}

/// The project type for the index of a selection: the library for the second
/// entry, and the binary for the first and for any other index.
pub fn project_type_for(selection: usize) -> (project_type: ProjectType)
    ensures
        project_type == if selection == 1 {
            ProjectType::Library
        } else {
            ProjectType::Binary
        },
{
    if selection == 1 {
        ProjectType::Library
    } else {
        ProjectType::Binary
    }
}

/// The edition at an index of the list of editions, if there is one.
pub fn edition_for(idx: usize) -> (edition: Option<&'static str>)
    ensures
        match edition {
            Some(text) => idx < edition_options().len() && text@ == edition_options()[idx as int],
            None => idx >= edition_options().len(),
        },
{
    match idx {
        0 => Some("2021"),
        1 => Some("2018"),
        2 => Some("2015"),
        _ => None,
    }
}

/// The license at an index of the list of licenses, if there is one.
pub fn license_for(idx: usize) -> (license: Option<&'static str>)
    ensures
        match license {
            Some(text) => idx < license_options().len() && text@ == license_options()[idx as int],
            None => idx >= license_options().len(),
        },
{
    match idx {
        0 => Some("MIT OR Apache-2.0"),
        1 => Some("MIT"),
        2 => Some("Apache-2.0"),
        3 => Some("GPL-3.0"),
        4 => Some("BSD-3-Clause"),
        5 => Some("Unlicense"),
        6 => Some("Custom"),
        _ => None,
    }
}

/// The feature at an index of the list of features, if there is one.
pub fn feature_for(idx: usize) -> (feature: Option<&'static str>)
    ensures
        match feature {
            Some(text) => idx < feature_options().len() && text@ == feature_options()[idx as int],
            None => idx >= feature_options().len(),
        },
{
    match idx {
        0 => Some("README.md"),
        1 => Some(".gitignore"),
        2 => Some("CONTRIBUTING.md"),
        3 => Some("CI configuration"),
        4 => Some("VS Code configuration"),
        5 => Some("benchmarks"),
        6 => Some("examples"),
        _ => None,
    }
}

/// The failure for an index that the list it was chosen from does not have.
pub open spec fn out_of_range() -> Seq<char> {
    "Selected value not found in options list"@
}

/// Whether `names` are the features at the given indices, in order.
pub open spec fn features_at(indices: Seq<usize>, names: Seq<String>) -> bool {
    &&& names.len() == indices.len()
    &&& forall|i: int|
        0 <= i < indices.len() ==> {
            &&& #[trigger] indices[i] < feature_options().len()
            &&& names[i]@ == feature_options()[indices[i] as int]
        }
}

/// The features at the given indices, in the order of the indices. An index
/// that the list of features does not have is a failure.
pub fn features_for(indices: &Vec<usize>) -> (features: Result<Vec<String>, ErrorReport>)
    ensures
        match features {
            Ok(names) => features_at(indices@, names@),
            Err(report) => {
                &&& exists|i: int| 0 <= i < indices@.len() && indices@[i] >= feature_options().len()
                &&& report.says(out_of_range())
            },
        },
{
    let mut names: Vec<String> = Vec::new();
    let mut i: usize = 0;
    while i < indices.len()
        invariant
            i <= indices@.len(),
            features_at(indices@.take(i as int), names@),
        decreases indices.len() - i,
    {
        let ghost prior = names@;
        match feature_for(indices[i]) {
            Some(name) => {
                names.push(name.to_owned());
                assert forall|k: int| 0 <= k < i + 1 implies {
                    &&& #[trigger] indices@.take(i + 1)[k] < feature_options().len()
                    &&& names@[k]@ == feature_options()[indices@.take(i + 1)[k] as int]
                } by {
                    if k < i {
                        assert(names@[k] == prior[k]);
                        assert(indices@.take(i as int)[k] == indices@[k]);
                    }
                }
            },
            None => {
                return Err(ErrorReport::msg("Selected value not found in options list"));
            },
        }
        i += 1;
    }
    assert(indices@.take(i as int) =~= indices@);
    Ok(names)
}

/// What is made of the answer to the selection of a project type: the type
/// for the index, and the failure of the prompt as it came.
pub open spec fn project_type_answer(selected: Result<usize, ErrorReport>) -> Result<
    ProjectType,
    ErrorReport,
> {
    match selected {
        Ok(idx) => Ok(
            if idx == 1 {
                ProjectType::Library
            } else {
                ProjectType::Binary
            },
        ),
        Err(report) => Err(report),
    }
}

/// Makes the project type of the answer to the selection of one.
pub fn project_type_from(selected: Result<usize, ErrorReport>) -> (project_type: Result<
    ProjectType,
    ErrorReport,
>)
    ensures
        project_type == project_type_answer(selected),
{
    match selected {
        Ok(selection) => Ok(project_type_for(selection)),
        Err(report) => Err(report),
    }
}

/// Whether `chosen` is what is made of the answer to a selection from
/// `options`: the option at the index, a failure that says that the value was
/// not found for an index that the list does not have, and the failure of the
/// prompt as it came.
pub open spec fn is_option_answer(
    options: Seq<Seq<char>>,
    selected: Result<usize, ErrorReport>,
    chosen: Result<String, ErrorReport>,
) -> bool {
    match selected {
        Ok(idx) => if idx < options.len() {
            chosen matches Ok(text) && text@ == options[idx as int]
        } else {
            chosen matches Err(report) && report.says(out_of_range())
        },
        Err(report) => chosen == Err::<String, ErrorReport>(report),
    }
}

/// Makes the edition of the answer to the selection of one.
pub fn edition_from(selected: Result<usize, ErrorReport>) -> (edition: Result<String, ErrorReport>)
    ensures
        is_option_answer(edition_options(), selected, edition),
{
    match selected {
        Ok(idx) => match edition_for(idx) {
            Some(edition) => Ok(edition.to_owned()),
            None => Err(ErrorReport::msg("Selected value not found in options list")),
        },
        Err(report) => Err(report),
    }
}

/// Whether `license` is what is made of the answers to the prompts for a
/// license: what the user typed where the last entry of the list was
/// selected, and otherwise what is made of the selection alone.
pub open spec fn is_license_answer(
    selected: Result<usize, ErrorReport>,
    typed: Result<String, ErrorReport>,
    license: Result<String, ErrorReport>,
) -> bool {
    if selected == Ok::<usize, ErrorReport>(6) {
        license == typed
    } else {
        is_option_answer(license_options(), selected, license)
    }
}

/// Makes the license of the answer to the selection of one; nothing stands
/// for the entry that asks for an identifier of the user's own.
pub fn license_from(selected: Result<usize, ErrorReport>) -> (license: Result<
    Option<String>,
    ErrorReport,
>)
    ensures
        match license {
            Ok(None) => selected == Ok::<usize, ErrorReport>(6),
            Ok(Some(text)) => selected != Ok::<usize, ErrorReport>(6) && is_option_answer(
                license_options(),
                selected,
                Ok(text),
            ),
            Err(report) => selected != Ok::<usize, ErrorReport>(6) && is_option_answer(
                license_options(),
                selected,
                Err(report),
            ),
        },
{
    match selected {
        Ok(idx) => {
            if idx == 6 {
                Ok(None)
            } else {
                match license_for(idx) {
                    Some(license) => Ok(Some(license.to_owned())),
                    None => Err(ErrorReport::msg("Selected value not found in options list")),
                }
            }
        },
        Err(report) => Err(report),
    }
}

/// Whether `features` is what is made of the answer to the selection of
/// features: the features at the indices, a failure that says that the value
/// was not found where the list does not have one of them, and the failure of
/// the prompt as it came.
pub open spec fn is_features_answer(
    selected: Result<Vec<usize>, ErrorReport>,
    features: Result<Vec<String>, ErrorReport>,
) -> bool {
    match selected {
        Ok(indices) => match features {
            Ok(names) => features_at(indices@, names@),
            Err(report) => {
                &&& exists|i: int|
                    0 <= i < indices@.len() && indices@[i] >= feature_options().len()
                &&& report.says(out_of_range())
            },
        },
        Err(report) => features == Err::<Vec<String>, ErrorReport>(report),
    }
}

/// Makes the features of the answer to the selection of features.
pub fn features_from(selected: Result<Vec<usize>, ErrorReport>) -> (features: Result<
    Vec<String>,
    ErrorReport,
>)
    ensures
        is_features_answer(selected, features),
{
    match selected {
        Ok(indices) => features_for(&indices),
        Err(report) => Err(report),
    }
}

/// Whether `outcome` is what is made of the answer to a confirmation:
/// `value` for a yes, a failure that says `refusal` for a no, and the failure
/// of the prompt as it came.
pub open spec fn is_confirmed<V>(
    confirmed: Result<bool, ErrorReport>,
    value: V,
    refusal: Seq<char>,
    outcome: Result<V, ErrorReport>,
) -> bool {
    match confirmed {
        Ok(true) => outcome == Ok::<V, ErrorReport>(value),
        Ok(false) => outcome matches Err(report) && report.says(refusal),
        Err(report) => outcome == Err::<V, ErrorReport>(report),
    }
}

/// Makes the outcome of the answer to a confirmation.
pub fn confirmed_or<V>(confirmed: Result<bool, ErrorReport>, value: V, refusal: &str) -> (outcome:
    Result<V, ErrorReport>)
    ensures
        is_confirmed(confirmed, value, refusal@, outcome),
{
    match confirmed {
        Ok(true) => Ok(value),
        Ok(false) => Err(ErrorReport::msg(refusal)),
        Err(report) => Err(report),
    }
}

/// Whether `config` is a configuration as the wizard makes it for a project
/// at `path`: it asks for prompts, has a list of features, and has no
/// description, author, plugins or variant.
pub open spec fn is_wizard_made(config: QuickstartConfig, path: Seq<char>) -> bool {
    &&& config.path@ == path
    &&& !config.yes
    &&& config.description is None
    &&& config.author is None
    &&& config.features is Some
    &&& config.plugins is None
    &&& !config.dry_run
    &&& config.template_variant is None
}

/// Whether `config` is the configuration that the wizard makes of the
/// answers for a project at `path`.
pub open spec fn is_wizard_config(
    config: QuickstartConfig,
    name: String,
    project_type: ProjectType,
    edition: String,
    license: String,
    git: bool,
    features: Vec<String>,
    path: Seq<char>,
) -> bool {
    &&& is_wizard_made(config, path)
    &&& config.name == name
    &&& config.project_type == project_type
    &&& config.edition == edition
    &&& config.license == license
    &&& config.git == git
    &&& config.features == Some(features)
}

/// Makes the configuration of the answers to the wizard.
pub fn wizard_config(
    name: String,
    project_type: ProjectType,
    edition: String,
    license: String,
    git: bool,
    features: Vec<String>,
    path: &str,
) -> (config: QuickstartConfig)
    ensures
        is_wizard_config(config, name, project_type, edition, license, git, features, path@),
{
    QuickstartConfig {
        name,
        project_type,
        edition,
        license,
        git,
        path: path.to_owned(),
        yes: false,
        description: None,
        author: None,
        features: Some(features),
        plugins: None,
        dry_run: false,
        template_variant: None,
    }
}

/// Gets the project name from the user. An answer that is empty or starts
/// with a digit is not accepted: a name that comes back passes the wizard.
pub fn get_project_name_with_api<T: InquireApi>(inquire_api: &mut T) -> (name: Result<
    String,
    ErrorReport,
>)
    ensures
        name matches Ok(text) ==> acceptable_name(text@),
{
    let validator = |input: &str| -> (verdict: Result<bool, String>)
        ensures
            verdict == Ok::<bool, String>(acceptable_name(input@)),
        { Ok(is_acceptable_name(input)) };
    inquire_api.text_with_validation(
        "Project name:",
        Some("The name of your Rust project (valid crate name)"),
        validator,
        "Project name cannot be empty or start with a digit",
    )
}

/// Gets the project type from the user: what is made of the answer to the
/// selection of one.
pub fn get_project_type_with_api<T: InquireApi>(inquire_api: &mut T) -> (project_type: Result<
    ProjectType,
    ErrorReport,
>)
    ensures
        exists|selected: Result<usize, ErrorReport>|
            project_type == #[trigger] project_type_answer(selected),
{
    let options = ["Binary (application)", "Library"];
    let selected = inquire_api.select("Project type:", options.as_slice(), None);
    let ghost answer = selected;
    let project_type = project_type_from(selected);
    assert(project_type == project_type_answer(answer));
    project_type
}

/// Gets the Rust edition from the user: what is made of the answer to the
/// selection of one, which is one of the editions on offer or a failure.
pub fn get_rust_edition_with_api<T: InquireApi>(inquire_api: &mut T) -> (edition: Result<
    String,
    ErrorReport,
>)
    ensures
        exists|selected: Result<usize, ErrorReport>| #[trigger]
            is_option_answer(edition_options(), selected, edition),
        edition matches Ok(text) ==> edition_options().contains(text@),
{
    let options = ["2021", "2018", "2015"];
    let selected = inquire_api.select(
        "Rust edition:",
        options.as_slice(),
        Some("The Rust edition to use for your project"),
    );
    let ghost answer = selected;
    let edition = edition_from(selected);
    assert(is_option_answer(edition_options(), answer, edition));
    edition
}

/// Gets the license from the user: what is made of the answer to the
/// selection of one and, where the last entry was selected, of the answer to
/// the prompt for an identifier.
pub fn get_license_with_api<T: InquireApi>(inquire_api: &mut T) -> (license: Result<
    String,
    ErrorReport,
>)
    ensures
        exists|selected: Result<usize, ErrorReport>, typed: Result<String, ErrorReport>| #[trigger]
            is_license_answer(selected, typed, license),
{
    let options = [
        "MIT OR Apache-2.0",
        "MIT",
        "Apache-2.0",
        "GPL-3.0",
        "BSD-3-Clause",
        "Unlicense",
        "Custom",
    ];
    let selected = inquire_api.select(
        "License:",
        options.as_slice(),
        Some("The license to use for your project"),
    );
    let ghost answer = selected;
    match license_from(selected) {
        Ok(Some(license)) => {
            let license = Ok(license);
            assert(is_license_answer(answer, license, license));
            license
        },
        Ok(None) => {
            let license = inquire_api.text(
                "Enter custom license identifier:",
                Some("Enter a valid SPDX license identifier"),
            );
            assert(is_license_answer(answer, license, license));
            license
        },
        Err(report) => {
            let license = Err(report);
            assert(is_license_answer(answer, license, license));
            license
        },
    }
}

/// Gets git initialization preference from the user.
pub fn get_git_init_with_api<T: InquireApi>(inquire_api: &mut T) -> (git: Result<
    bool,
    ErrorReport,
>) {
    inquire_api.confirm("Initialize Git repository?", true)
}

/// Gets the optional features to include: each of them one of the features
/// on offer.
pub fn get_optional_features_with_api<T: InquireApi>(inquire_api: &mut T) -> (features: Result<
    Vec<String>,
    ErrorReport,
>)
    ensures
        exists|selected: Result<Vec<usize>, ErrorReport>| #[trigger]
            is_features_answer(selected, features),
        features matches Ok(names) ==> exists|indices: Seq<usize>|
            #[trigger] features_at(indices, names@),
{
    let options = [
        "README.md",
        ".gitignore",
        "CONTRIBUTING.md",
        "CI configuration",
        "VS Code configuration",
        "benchmarks",
        "examples",
    ];
    let defaults: [usize; 2] = [0, 1];
    let selected = inquire_api.multiselect(
        "Select optional features:",
        options.as_slice(),
        defaults.as_slice(),
        Some("Select additional files and features to include"),
    );
    let ghost answer = selected;
    let features = features_from(selected);
    assert(is_features_answer(answer, features));
    assert(features matches Ok(names) ==> features_at(answer->Ok_0@, names@));
    features
}

/// The lines of a summary that list the first `n` features.
pub open spec fn feature_lines(features: Seq<String>, n: nat) -> Seq<char>
    decreases n,
{
    if n == 0 {
        Seq::empty()
    } else {
        feature_lines(features, (n - 1) as nat) + "  - "@ + features[n - 1]@ + "\n"@
    }
}

/// The summary of a configuration: name, type, edition, license and whether
/// git is initialised, one line each, and the features, if there is a list of
/// them, under a heading.
pub open spec fn summary_of(config: QuickstartConfig) -> Seq<char> {
    "Project name: "@ + config.name@ + "\n"@ + "Type: "@ + config.project_type.label_text() + "\n"@
        + "Edition: "@ + config.edition@ + "\n"@ + "License: "@ + config.license@ + "\n"@
        + "Initialize Git: "@ + (if config.git {
        "Yes"@
    } else {
        "No"@
    }) + "\n"@ + match config.features {
        Some(features) => "Additional features:\n"@ + feature_lines(features@, features@.len()),
        None => Seq::empty(),
    }
}

/// Writes the summary of a configuration.
pub fn project_summary(config: &QuickstartConfig) -> (summary: String)
    ensures
        summary@ == summary_of(*config),
{
    let mut summary = String::new();
    summary.push_str("Project name: ");
    summary.push_str(config.name.as_str());
    summary.push_str("\n");
    summary.push_str("Type: ");
    summary.push_str(config.project_type.label());
    summary.push_str("\n");
    summary.push_str("Edition: ");
    summary.push_str(config.edition.as_str());
    summary.push_str("\n");
    summary.push_str("License: ");
    summary.push_str(config.license.as_str());
    summary.push_str("\n");
    summary.push_str("Initialize Git: ");
    summary.push_str(if config.git {
        "Yes"
    } else {
        "No"
    });
    summary.push_str("\n");
    let ghost head = summary@;
    assert(head =~= "Project name: "@ + config.name@ + "\n"@ + "Type: "@
        + config.project_type.label_text() + "\n"@ + "Edition: "@ + config.edition@ + "\n"@
        + "License: "@ + config.license@ + "\n"@ + "Initialize Git: "@ + (if config.git {
        "Yes"@
    } else {
        "No"@
    }) + "\n"@);
    match &config.features {
        Some(features) => {
            summary.push_str("Additional features:\n");
            let mut i: usize = 0;
            while i < features.len()
                invariant
                    i <= features@.len(),
                    summary@ == head + "Additional features:\n"@ + feature_lines(
                        features@,
                        i as nat,
                    ),
                decreases features.len() - i,
            {
                summary.push_str("  - ");
                summary.push_str(features[i].as_str());
                summary.push_str("\n");
                i += 1;
                assert(summary@ =~= head + "Additional features:\n"@ + feature_lines(
                    features@,
                    i as nat,
                ));
            }
            assert(summary@ =~= head + ("Additional features:\n"@ + feature_lines(
                features@,
                features@.len(),
            )));
        },
        None => {
            assert(summary@ =~= head + Seq::<char>::empty());
        },
    }
    summary
}

/// Asks whether a directory that does not exist is to be created. A no is a
/// failure that says that the creation of the project was cancelled.
pub fn confirm_directory<T: InquireApi>(inquire_api: &mut T, path: &str) -> (agreed: Result<
    (),
    ErrorReport,
>)
    ensures
        exists|confirmed: Result<bool, ErrorReport>| #[trigger]
            is_confirmed(confirmed, (), "Project creation cancelled"@, agreed),
{
    let question = concat(concat("Directory ", path).as_str(), " does not exist. Create it?");
    let confirmed = inquire_api.confirm(question.as_str(), true);
    let ghost answer = confirmed;
    let agreed = confirmed_or(confirmed, (), "Project creation cancelled");
    assert(is_confirmed(answer, (), "Project creation cancelled"@, agreed));
    agreed
}

/// Whether `features` are drawn from the features on offer.
pub open spec fn on_offer(features: Seq<String>) -> bool {
    exists|indices: Seq<usize>| #[trigger] features_at(indices, features)
}

/// Whether `outcome` is what the wizard makes of the answers to its prompts
/// for a project at `path`. The first answer that is a failure is the
/// outcome, and the prompts after it are not put. Where all are answered, the
/// answer to the confirmation decides: a yes gives the configuration that
/// holds the answers, a no a failure that says that the user cancelled.
pub open spec fn is_wizard_outcome(
    name: Result<String, ErrorReport>,
    project_type: Result<ProjectType, ErrorReport>,
    edition: Result<String, ErrorReport>,
    license: Result<String, ErrorReport>,
    git: Result<bool, ErrorReport>,
    features: Result<Vec<String>, ErrorReport>,
    confirmed: Result<bool, ErrorReport>,
    path: Seq<char>,
    outcome: Result<QuickstartConfig, ErrorReport>,
) -> bool {
    match (name, project_type, edition, license, git, features) {
        (Err(report), _, _, _, _, _) => outcome == Err::<QuickstartConfig, ErrorReport>(report),
        (Ok(_), Err(report), _, _, _, _) => outcome == Err::<QuickstartConfig, ErrorReport>(report),
        (Ok(_), Ok(_), Err(report), _, _, _) => outcome == Err::<QuickstartConfig, ErrorReport>(
            report,
        ),
        (Ok(_), Ok(_), Ok(_), Err(report), _, _) => outcome == Err::<QuickstartConfig, ErrorReport>(
            report,
        ),
        (Ok(_), Ok(_), Ok(_), Ok(_), Err(report), _) => outcome == Err::<
            QuickstartConfig,
            ErrorReport,
        >(report),
        (Ok(_), Ok(_), Ok(_), Ok(_), Ok(_), Err(report)) => outcome == Err::<
            QuickstartConfig,
            ErrorReport,
        >(report),
        (Ok(name), Ok(project_type), Ok(edition), Ok(license), Ok(git), Ok(features)) => {
            match confirmed {
                Ok(true) => outcome matches Ok(config) && is_wizard_config(
                    config,
                    name,
                    project_type,
                    edition,
                    license,
                    git,
                    features,
                    path,
                ),
                Ok(false) => outcome matches Err(report) && report.says(
                    "Project creation cancelled by user"@,
                ),
                Err(report) => outcome == Err::<QuickstartConfig, ErrorReport>(report),
            }
        },
    }
}

/// Runs the wizard for a project at `path`, a directory that exists: asks for
/// name, type, edition, license, git and features, shows the summary and asks
/// for confirmation. The outcome is what is made of the answers: the first
/// failure among them, a failure that says that the user cancelled, or the
/// configuration that holds them, whose name passes the wizard, whose edition
/// is one of those on offer and whose features are drawn from those on offer.
pub fn run_wizard_with_api<T: InquireApi>(inquire_api: &mut T, path: &str) -> (outcome: Result<
    QuickstartConfig,
    ErrorReport,
>)
    ensures
        exists|
            name: Result<String, ErrorReport>,
            project_type: Result<ProjectType, ErrorReport>,
            edition: Result<String, ErrorReport>,
            license: Result<String, ErrorReport>,
            git: Result<bool, ErrorReport>,
            features: Result<Vec<String>, ErrorReport>,
            confirmed: Result<bool, ErrorReport>,
        | #[trigger]
            is_wizard_outcome(
                name,
                project_type,
                edition,
                license,
                git,
                features,
                confirmed,
                path@,
                outcome,
            ),
        outcome matches Ok(config) ==> {
            &&& is_wizard_made(config, path@)
            &&& acceptable_name(config.name@)
            &&& edition_options().contains(config.edition@)
            &&& on_offer(config.features->0@)
        },
{
    let name = match get_project_name_with_api(inquire_api) {
        Ok(name) => name,
        Err(report) => {
            let outcome = Err(report);
            assert(is_wizard_outcome(
                Err(report),
                Err(report),
                Err(report),
                Err(report),
                Err(report),
                Err(report),
                Err(report),
                path@,
                outcome,
            ));
            return outcome;
        },
    };
    let project_type = match get_project_type_with_api(inquire_api) {
        Ok(project_type) => project_type,
        Err(report) => {
            let outcome = Err(report);
            assert(is_wizard_outcome(
                Ok(name),
                Err(report),
                Err(report),
                Err(report),
                Err(report),
                Err(report),
                Err(report),
                path@,
                outcome,
            ));
            return outcome;
        },
    };
    let edition = match get_rust_edition_with_api(inquire_api) {
        Ok(edition) => edition,
        Err(report) => {
            let outcome = Err(report);
            assert(is_wizard_outcome(
                Ok(name),
                Ok(project_type),
                Err(report),
                Err(report),
                Err(report),
                Err(report),
                Err(report),
                path@,
                outcome,
            ));
            return outcome;
        },
    };
    let license = match get_license_with_api(inquire_api) {
        Ok(license) => license,
        Err(report) => {
            let outcome = Err(report);
            assert(is_wizard_outcome(
                Ok(name),
                Ok(project_type),
                Ok(edition),
                Err(report),
                Err(report),
                Err(report),
                Err(report),
                path@,
                outcome,
            ));
            return outcome;
        },
    };
    let git = match get_git_init_with_api(inquire_api) {
        Ok(git) => git,
        Err(report) => {
            let outcome = Err(report);
            assert(is_wizard_outcome(
                Ok(name),
                Ok(project_type),
                Ok(edition),
                Ok(license),
                Err(report),
                Err(report),
                Err(report),
                path@,
                outcome,
            ));
            return outcome;
        },
    };
    let features = match get_optional_features_with_api(inquire_api) {
        Ok(features) => features,
        Err(report) => {
            let outcome = Err(report);
            assert(is_wizard_outcome(
                Ok(name),
                Ok(project_type),
                Ok(edition),
                Ok(license),
                Ok(git),
                Err(report),
                Err(report),
                path@,
                outcome,
            ));
            return outcome;
        },
    };
    let ghost answers = (name, project_type, edition, license, git, features);
    let config = wizard_config(name, project_type, edition, license, git, features, path);
    let mut question = "\nProject Summary:\n".to_owned();
    question.push_str(project_summary(&config).as_str());
    question.push_str("\nCreate project with these settings?");
    let confirmed = inquire_api.confirm(question.as_str(), true);
    let ghost answer = confirmed;
    let outcome = confirmed_or(confirmed, config, "Project creation cancelled by user");
    assert(is_wizard_outcome(
        Ok(answers.0),
        Ok(answers.1),
        Ok(answers.2),
        Ok(answers.3),
        Ok(answers.4),
        Ok(answers.5),
        answer,
        path@,
        outcome,
    ));
    outcome
}

} // verus!
