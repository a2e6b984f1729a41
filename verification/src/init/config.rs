//! Project configuration handling for the init command.

use crate::args::InitArgs;
use crate::errors::ErrorReport;
use crate::init::inquire_api::InquireApi;
use crate::init::interactive::{project_type_answer, project_type_from};
use crate::paths::{file_name, file_name_of};
use crate::ProjectType;
use vstd::prelude::*;

verus! {

/// The name that a project takes from the directory it is set up in: the
/// last segment of the path, and `project` where the path has none.
pub open spec fn directory_name(path: Seq<char>) -> Seq<char> {
    match file_name_of(path) {
        Some(name) => name,
        None => "project"@,
    }
}

/// The name that a project takes from the directory it is set up in.
pub fn default_project_name(path: &str) -> (name: String)
    ensures
        name@ == directory_name(path@),
{
    match file_name(path) {
        Some(name) => name,
        None => "project".to_owned(),
    }
}

/// Whether `name` is what is made of the answer to the prompt for a name: the
/// answer, the name of the directory for an empty answer, and the failure of
/// the prompt as it came.
pub open spec fn is_name_answer(
    answered: Result<String, ErrorReport>,
    dir_name: Seq<char>,
    name: Result<String, ErrorReport>,
) -> bool {
    match answered {
        Ok(answer) => name matches Ok(text) && text@ == if answer@.len() == 0 {
            dir_name
        } else {
            answer@
        },
        Err(report) => name == Err::<String, ErrorReport>(report),
    }
}

/// Makes the project name of the answer to the prompt for one.
pub fn project_name_from(answered: Result<String, ErrorReport>, dir_name: String) -> (name: Result<
    String,
    ErrorReport,
>)
    ensures
        is_name_answer(answered, dir_name@, name),
{
    match answered {
        Ok(answer) => {
            if answer.as_str().is_empty() {
                Ok(dir_name)
            } else {
                Ok(answer)
            }
        },
        Err(report) => Err(report),
    }
}

/// Gets the project name: the name among the arguments where there is one,
/// the name of the directory where defaults are accepted, and otherwise what
/// the user answers, an empty answer standing for the name of the directory.
pub fn get_project_name<T: InquireApi>(args: &InitArgs, inquire_api: &mut T) -> (name: Result<
    String,
    ErrorReport,
>)
    ensures
        args.name matches Some(given) ==> name == Ok::<String, ErrorReport>(given),
        args.name is None && args.yes ==> (name matches Ok(text) && text@ == directory_name(
            args.path@,
        )),
        args.name is None && !args.yes ==> exists|answered: Result<String, ErrorReport>| #[trigger]
            is_name_answer(answered, directory_name(args.path@), name),
{
    match &args.name {
        Some(name) => Ok(name.clone()),
        None => {
            let dir_name = default_project_name(args.path.as_str());
            if !args.yes {
                let answered = inquire_api.text("Project name", Some(dir_name.as_str()));
                let ghost answer = answered;
                let name = project_name_from(answered, dir_name);
                assert(is_name_answer(answer, directory_name(args.path@), name));
                name
            } else {
                Ok(dir_name)
            }
        },
    }
}

/// Determines the project type: the library where it is asked for, the
/// binary where it is asked for or defaults are accepted, and otherwise what
/// the user selects.
pub fn determine_project_type<T: InquireApi>(args: &InitArgs, inquire_api: &mut T) -> (project_type:
    Result<ProjectType, ErrorReport>)
    ensures
        args.lib ==> project_type == Ok::<ProjectType, ErrorReport>(ProjectType::Library),
        !args.lib && (args.bin || args.yes) ==> project_type == Ok::<ProjectType, ErrorReport>(
            ProjectType::Binary,
        ),
        !args.lib && !args.bin && !args.yes ==> exists|selected: Result<usize, ErrorReport>|
            project_type == #[trigger] project_type_answer(selected),
{
    if args.lib {
        Ok(ProjectType::Library)
    } else if args.bin || args.yes {
        Ok(ProjectType::Binary)
    } else {
        let options = ["Binary application", "Library crate"];
        let selected = inquire_api.select("Project type", options.as_slice(), None);
        let ghost answer = selected;
        let project_type = project_type_from(selected);
        assert(project_type == project_type_answer(answer));
        project_type
    }
}

/// The texts of a list of pairs of strings.
pub open spec fn pair_texts(pairs: Seq<(String, String)>) -> Seq<(Seq<char>, Seq<char>)> {
    Seq::new(pairs.len(), |i: int| (pairs[i].0@, pairs[i].1@))
}

/// What is shown of a project before it is set up, as keys and values.
pub open spec fn project_info(
    project_name: Seq<char>,
    project_type: ProjectType,
    args: InitArgs,
) -> Seq<(Seq<char>, Seq<char>)> {
    seq![
        ("Name"@, project_name),
        ("Type"@, project_type.label_text()),
        ("Edition"@, args.edition@),
        ("License"@, args.license@),
        ("Path"@, args.path@),
        ("Git"@, if args.git {
            "true"@
        } else {
            "false"@
        }),
    ]
}

/// Lays out what is shown of a project before it is set up.
pub fn display_project_info(project_name: &str, project_type: &ProjectType, args: &InitArgs) -> (info:
    Vec<(String, String)>)
    ensures
        pair_texts(info@) == project_info(project_name@, *project_type, *args),
{
    let mut info: Vec<(String, String)> = Vec::new();
    info.push(("Name".to_owned(), project_name.to_owned()));
    info.push(("Type".to_owned(), project_type.label().to_owned()));
    info.push(("Edition".to_owned(), args.edition.clone()));
    info.push(("License".to_owned(), args.license.clone()));
    info.push(("Path".to_owned(), args.path.clone()));
    info.push(("Git".to_owned(), if args.git {
        "true".to_owned()
    } else {
        "false".to_owned()
    }));
    assert(pair_texts(info@) =~= project_info(project_name@, *project_type, *args));
    info
}

} // verus!
