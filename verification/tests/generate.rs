use quickstart_lib::config::QuickstartConfig;
use quickstart_lib::generate::{
    GenerateError, GenerateEvent, GenerateStage, GenerateStep, Generation,
};
use quickstart_lib::template::{DirEntry, TemplateError};
use quickstart_lib::ProjectType;

fn config(path: &str, project_type: ProjectType) -> QuickstartConfig {
    QuickstartConfig {
        name: "demo".to_string(),
        project_type,
        edition: "2021".to_string(),
        license: "MIT".to_string(),
        git: false,
        path: path.to_string(),
        yes: true,
        description: None,
        author: None,
        features: None,
        plugins: None,
        dry_run: false,
        template_variant: None,
    }
}

fn file(name: &str) -> DirEntry {
    DirEntry { name: name.to_string(), is_dir: false }
}

fn dir(name: &str) -> DirEntry {
    DirEntry { name: name.to_string(), is_dir: true }
}

fn probed(step: GenerateStep) -> String {
    match step {
        GenerateStep::Exists { path } => path,
        other => panic!("expected a probe, got {other:?}"),
    }
}

fn is_dir(step: GenerateStep) -> String {
    match step {
        GenerateStep::IsDir { path } => path,
        other => panic!("expected a directory probe, got {other:?}"),
    }
}

fn list_dir(step: GenerateStep) -> String {
    match step {
        GenerateStep::ListDir { path } => path,
        other => panic!("expected a listing, got {other:?}"),
    }
}

fn create_dir(step: GenerateStep) -> String {
    match step {
        GenerateStep::CreateDirAll { path } => path,
        other => panic!("expected a directory to create, got {other:?}"),
    }
}

fn read_file(step: GenerateStep) -> String {
    match step {
        GenerateStep::ReadFile { path } => path,
        other => panic!("expected a file to read, got {other:?}"),
    }
}

fn write_file(step: GenerateStep) -> (String, String) {
    match step {
        GenerateStep::WriteFile { path, content } => (path, content),
        other => panic!("expected a file to write, got {other:?}"),
    }
}

/// Takes a generation for `/out/demo` up to the point where the templates
/// are listed: a README in the shared layer and `src/main.rs` for the
/// extended binary, in a repository at `/work/templates`.
fn listed_generation() -> (Generation, GenerateStep) {
    let (mut generation, step) = Generation::begin(config("/out/demo", ProjectType::Binary));
    assert_eq!(generation.stage(), GenerateStage::CheckParent);
    assert_eq!(probed(step), "/out");
    assert!(matches!(generation.advance(GenerateEvent::Found(true)), GenerateStep::CurrentDir));
    let step = generation.advance(GenerateEvent::WorkingDir("/work/sub/deep".to_string()));
    assert_eq!(is_dir(step), "/work/sub/deep/templates");
    assert_eq!(is_dir(generation.advance(GenerateEvent::Found(false))), "/work/sub/templates");
    assert_eq!(is_dir(generation.advance(GenerateEvent::Found(false))), "/work/templates");
    let step = generation.advance(GenerateEvent::Found(true));
    assert_eq!(generation.stage(), GenerateStage::Listing);
    assert_eq!(probed(step), "/work/templates/binary/extended");
    assert_eq!(probed(generation.advance(GenerateEvent::Found(true))), "/work/templates/base");
    assert_eq!(list_dir(generation.advance(GenerateEvent::Found(true))), "/work/templates/base");
    let step = generation.advance(GenerateEvent::Entries(vec![file("README.md.hbs")]));
    assert_eq!(list_dir(step), "/work/templates/binary/extended");
    let step = generation.advance(GenerateEvent::Entries(vec![dir("src")]));
    assert_eq!(list_dir(step), "/work/templates/binary/extended/src");
    let step = generation.advance(GenerateEvent::Entries(vec![file("main.rs.hbs")]));
    assert_eq!(generation.stage(), GenerateStage::CreateOutput);
    assert_eq!(
        generation.records(),
        &vec![
            "/work/templates/base/README.md.hbs".to_string(),
            "/work/templates/binary/extended/src/main.rs.hbs".to_string()
        ]
    );
    (generation, step)
}

#[test]
fn generation_renders_each_template_to_its_destination() {
    let (mut generation, step) = listed_generation();
    assert_eq!(create_dir(step), "/out/demo");
    let step = generation.advance(GenerateEvent::Completed);
    assert_eq!(read_file(step), "/work/templates/base/README.md.hbs");
    let step = generation.advance(GenerateEvent::Content("# {{name}}".to_string()));
    assert_eq!(create_dir(step), "/out/demo");
    let step = generation.advance(GenerateEvent::Completed);
    assert_eq!(write_file(step), ("/out/demo/README.md".to_string(), "# demo".to_string()));
    assert_eq!(generation.written(), 0);
    let step = generation.advance(GenerateEvent::Completed);
    assert_eq!(generation.written(), 1);
    assert_eq!(read_file(step), "/work/templates/binary/extended/src/main.rs.hbs");
    let step = generation.advance(GenerateEvent::Content("fn main(){}".to_string()));
    assert_eq!(create_dir(step), "/out/demo/src");
    let step = generation.advance(GenerateEvent::Completed);
    assert_eq!(write_file(step), ("/out/demo/src/main.rs".to_string(), "fn main(){}".to_string()));
    let step = generation.advance(GenerateEvent::Completed);
    assert!(matches!(step, GenerateStep::Done));
    assert!(generation.is_finished());
    assert_eq!(generation.stage(), GenerateStage::Done);
    assert_eq!(generation.written(), 2);
}

#[test]
fn generation_fails_without_the_parent_directory() {
    let (mut generation, step) = Generation::begin(config("/nowhere/demo", ProjectType::Binary));
    assert_eq!(probed(step), "/nowhere");
    match generation.advance(GenerateEvent::Found(false)) {
        GenerateStep::Failed(error) => {
            assert!(matches!(&error, GenerateError::MissingParent { parent } if parent == "/nowhere"));
            assert_eq!(
                error.message(),
                "Parent directory '/nowhere' does not exist. Please create it first."
            );
        }
        other => panic!("expected a failure, got {other:?}"),
    }
    assert!(generation.is_finished());
}

#[test]
fn generation_of_a_single_segment_probes_the_empty_parent() {
    let (generation, step) = Generation::begin(config("demo", ProjectType::Library));
    assert_eq!(generation.stage(), GenerateStage::CheckParent);
    assert_eq!(probed(step), "");
    let (generation, step) = Generation::begin(config("/", ProjectType::Library));
    assert_eq!(generation.stage(), GenerateStage::AskWorkingDir);
    assert!(matches!(step, GenerateStep::CurrentDir));
}

#[test]
fn generation_fails_when_no_template_directory_is_found() {
    let (mut generation, _) = Generation::begin(config("/out/demo", ProjectType::Binary));
    generation.advance(GenerateEvent::Found(true));
    let step = generation.advance(GenerateEvent::WorkingDir("/a/b".to_string()));
    assert_eq!(is_dir(step), "/a/b/templates");
    assert_eq!(is_dir(generation.advance(GenerateEvent::Found(false))), "/a/templates");
    assert_eq!(is_dir(generation.advance(GenerateEvent::Found(false))), "/templates");
    match generation.advance(GenerateEvent::Found(false)) {
        GenerateStep::Failed(error) => {
            assert!(matches!(error, GenerateError::NoTemplatesDir));
            assert_eq!(
                error.message(),
                "Could not find a 'templates/' directory in this or any parent directory."
            );
        }
        other => panic!("expected a failure, got {other:?}"),
    }
}

#[test]
fn generation_lists_the_extended_variant_of_the_project_type() {
    let (mut generation, _) = Generation::begin(config("/out/demo", ProjectType::Library));
    generation.advance(GenerateEvent::Found(true));
    generation.advance(GenerateEvent::WorkingDir("/w".to_string()));
    let step = generation.advance(GenerateEvent::Found(true));
    assert_eq!(probed(step), "/w/templates/library/extended");
    match generation.advance(GenerateEvent::Found(false)) {
        GenerateStep::Failed(GenerateError::Template(TemplateError::TemplateNotFound { path })) => {
            assert_eq!(path, "/w/templates/library/extended")
        }
        other => panic!("expected a missing directory, got {other:?}"),
    }
    assert_eq!(generation.stage(), GenerateStage::Failed);
}

#[test]
fn generation_stops_at_the_first_failure() {
    let (mut generation, _) = listed_generation();
    match generation.advance(GenerateEvent::Failed(std::io::Error::other("read-only"))) {
        GenerateStep::Failed(GenerateError::Io(error)) => assert_eq!(error.to_string(), "read-only"),
        other => panic!("expected a failure, got {other:?}"),
    }
    assert!(generation.is_finished());

    let (mut generation, _) = listed_generation();
    generation.advance(GenerateEvent::Completed);
    match generation.advance(GenerateEvent::Failed(std::io::Error::other("gone"))) {
        GenerateStep::Failed(GenerateError::Template(TemplateError::LoadError { path, .. })) => {
            assert_eq!(path, "base/README.md.hbs")
        }
        other => panic!("expected a load error, got {other:?}"),
    }

    let (mut generation, _) = listed_generation();
    generation.advance(GenerateEvent::Completed);
    match generation.advance(GenerateEvent::Content("{{missing}}".to_string())) {
        GenerateStep::Failed(GenerateError::Template(TemplateError::RenderError { name, .. })) => {
            assert_eq!(name, "string_template")
        }
        other => panic!("expected a render error, got {other:?}"),
    }
    assert_eq!(generation.written(), 0);

    let (mut generation, _) = listed_generation();
    generation.advance(GenerateEvent::Completed);
    generation.advance(GenerateEvent::Content("x".to_string()));
    generation.advance(GenerateEvent::Completed);
    match generation.advance(GenerateEvent::Failed(std::io::Error::other("full"))) {
        GenerateStep::Failed(GenerateError::Io(error)) => assert_eq!(error.to_string(), "full"),
        other => panic!("expected a failure, got {other:?}"),
    }
}

#[test]
fn generation_without_templates_only_creates_the_directory() {
    let (mut generation, _) = Generation::begin(config("/out/demo", ProjectType::Binary));
    generation.advance(GenerateEvent::Found(true));
    generation.advance(GenerateEvent::WorkingDir("/w".to_string()));
    generation.advance(GenerateEvent::Found(true));
    generation.advance(GenerateEvent::Found(true));
    generation.advance(GenerateEvent::Found(false));
    let step = generation.advance(GenerateEvent::Entries(Vec::new()));
    assert_eq!(create_dir(step), "/out/demo");
    assert!(matches!(generation.advance(GenerateEvent::Completed), GenerateStep::Done));
}

#[test]
fn generation_repeats_a_request_that_got_another_answer() {
    let (mut generation, _) = Generation::begin(config("/out/demo", ProjectType::Binary));
    assert_eq!(probed(generation.advance(GenerateEvent::Completed)), "/out");
    generation.advance(GenerateEvent::Found(true));
    assert!(matches!(generation.advance(GenerateEvent::Found(true)), GenerateStep::CurrentDir));
    let (mut generation, _) = listed_generation();
    assert_eq!(create_dir(generation.advance(GenerateEvent::Found(true))), "/out/demo");
    generation.advance(GenerateEvent::Completed);
    assert_eq!(
        read_file(generation.advance(GenerateEvent::Completed)),
        "/work/templates/base/README.md.hbs"
    );
}

#[test]
fn test_find_templates_dir_error() {
    let (mut generation, _) = Generation::begin(config("/tmp/none/demo", ProjectType::Binary));
    generation.advance(GenerateEvent::Found(true));
    let mut step = generation.advance(GenerateEvent::WorkingDir("/tmp/none".to_string()));
    let mut result = Ok(());
    while !generation.is_finished() {
        step = match step {
            GenerateStep::IsDir { .. } => generation.advance(GenerateEvent::Found(false)),
            other => panic!("expected a directory probe, got {other:?}"),
        };
        if let GenerateStep::Failed(error) = &step {
            result = Err(error.message());
        }
    }
    assert!(result.is_err());
}

#[test]
fn test_generate_project_write_error() {
    let (mut generation, step) = listed_generation();
    assert_eq!(create_dir(step), "/out/demo");
    let refused = std::io::Error::new(std::io::ErrorKind::AlreadyExists, "File exists");
    let result: Result<(), GenerateError> = match generation.advance(GenerateEvent::Failed(refused)) {
        GenerateStep::Failed(error) => Err(error),
        other => panic!("expected a failure, got {other:?}"),
    };

    assert!(result.is_err(), "Should error when output path is a file");

    if let Err(e) = result {
        assert!(
            e.message().contains("Not a directory")
                || e.message().contains("Is a file")
                || e.message().contains("already exists")
                || e.message().contains("Permission denied")
                || e.message().contains("File exists"),
            "Error should be about output path being a file, got: {}",
            e.message()
        );
    }
}

#[test]
fn generates_project_config_successfully() {
    let config = QuickstartConfig {
        name: "example_project".into(),
        project_type: ProjectType::Binary,
        edition: "2021".into(),
        license: "MIT".into(),
        path: "tmp/test-project".into(),
        git: false,
        yes: true,
        description: None,
        author: None,
        features: None,
        plugins: None,
        dry_run: false,
        template_variant: None,
    };

    let (mut generation, step) = quickstart_lib::generate_project(config);
    assert_eq!(probed(step), "tmp");
    generation.advance(GenerateEvent::Found(true));
    generation.advance(GenerateEvent::WorkingDir("/work".to_string()));
    generation.advance(GenerateEvent::Found(true));
    generation.advance(GenerateEvent::Found(true));
    generation.advance(GenerateEvent::Found(false));
    let step = generation.advance(GenerateEvent::Entries(vec![file("Cargo.toml.hbs")]));
    assert_eq!(create_dir(step), "tmp/test-project");
    let step = generation.advance(GenerateEvent::Completed);
    assert_eq!(read_file(step), "/work/templates/binary/extended/Cargo.toml.hbs");
    let body = "[package]\nname = \"{{name}}\"\nedition = \"{{edition}}\"\n".to_string();
    let step = generation.advance(GenerateEvent::Content(body));
    assert_eq!(create_dir(step), "tmp/test-project");
    let step = generation.advance(GenerateEvent::Completed);
    assert_eq!(
        write_file(step),
        (
            "tmp/test-project/Cargo.toml".to_string(),
            "[package]\nname = \"example_project\"\nedition = \"2021\"\n".to_string()
        )
    );
    let result: Result<(), GenerateStep> = match generation.advance(GenerateEvent::Completed) {
        GenerateStep::Done => Ok(()),
        other => Err(other),
    };
    assert!(result.is_ok());
}
