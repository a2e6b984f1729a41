use quickstart_lib::paths::{file_name, join, parent_dir};
use std::path::{Path, PathBuf};
use quickstart_lib::template::loader::destination_for;
use quickstart_lib::template::{
    DirEntry, TemplateError, TemplateLoader, TemplateVariant, TemplateWalk, WalkEvent, WalkStage,
    WalkStep,
};
use quickstart_lib::{Config, ProjectType, SearchStep, TemplatesSearch};

fn file(name: &str) -> DirEntry {
    DirEntry { name: name.to_string(), is_dir: false }
}

fn dir(name: &str) -> DirEntry {
    DirEntry { name: name.to_string(), is_dir: true }
}

fn expect_probe(step: WalkStep, expected: &str) {
    match step {
        WalkStep::Probe { path } => assert_eq!(path, expected),
        other => panic!("expected a probe of {expected}, got {other:?}"),
    }
}

fn expect_list(step: WalkStep, expected: &str) {
    match step {
        WalkStep::List { path } => assert_eq!(path, expected),
        other => panic!("expected a listing of {expected}, got {other:?}"),
    }
}

/// Walks the repository of the loader tests: a README in the shared layer and
/// one source file for the minimal binary.
fn walk_test_repository(loader: &TemplateLoader) -> Vec<String> {
    let (mut walk, step) = loader.list_templates(ProjectType::Binary, TemplateVariant::Minimal);
    expect_probe(step, "/repo/binary/minimal");
    expect_probe(walk.advance(WalkEvent::Exists(true)), "/repo/base");
    expect_list(walk.advance(WalkEvent::Exists(true)), "/repo/base");
    expect_list(
        walk.advance(WalkEvent::Entries(vec![file("README.md.hbs")])),
        "/repo/binary/minimal",
    );
    expect_list(
        walk.advance(WalkEvent::Entries(vec![dir("src")])),
        "/repo/binary/minimal/src",
    );
    let last = walk.advance(WalkEvent::Entries(vec![file("main.rs.hbs")]));
    assert!(matches!(last, WalkStep::Done));
    assert!(walk.is_finished());
    assert_eq!(walk.shared_count(), 1);
    walk.into_templates()
}

#[test]
fn test_load_template() {
    let loader = TemplateLoader::new("/repo");
    assert_eq!(loader.template_file("base/README.md.hbs"), "/repo/base/README.md.hbs");

    let read = Ok("# {{name}}\n\n{{description}}\n\n".to_string());
    let template_content = loader.load_template("base/README.md.hbs", read).unwrap();
    assert!(template_content.contains("# {{name}}"));
}

#[test]
fn test_template_exists() {
    let loader = TemplateLoader::new("/repo");
    assert_eq!(loader.template_file("base/README.md.hbs"), "/repo/base/README.md.hbs");
    assert_eq!(loader.template_file("nonexistent.hbs"), "/repo/nonexistent.hbs");
}

#[test]
fn test_list_templates() {
    let loader = TemplateLoader::new("/repo");
    let templates = walk_test_repository(&loader);

    assert!(templates.len() >= 2);

    let has_readme = templates.iter().any(|path| path.contains("README.md.hbs"));
    let has_main = templates.iter().any(|path| path.contains("main.rs.hbs"));

    assert!(has_readme);
    assert!(has_main);
}

#[test]
fn test_get_destination_path() {
    let loader = TemplateLoader::new("/repo");

    let template_path = "/repo/base/README.md.hbs";
    let dest_root = "/tmp/my-project";

    let dest_path = loader.get_destination_path(template_path, dest_root);

    assert_eq!(dest_path, "/tmp/my-project/README.md");
}

#[test]
fn test_template_variant_enum() {
    let _min = TemplateVariant::Minimal;
    let _ext = TemplateVariant::Extended;
    assert_eq!(TemplateVariant::default(), TemplateVariant::Extended);
}

#[test]
fn test_template_error_variants() {
    let loader = TemplateLoader::new("/repo");
    let err = loader
        .load_template("foo", Err(std::io::Error::other("fail")))
        .unwrap_err();
    assert!(err.message().contains("Failed to load template"));
    assert_eq!(err.message(), "Failed to load template at foo: fail");

    let engine = quickstart_lib::template::TemplateEngine::new(
        quickstart_lib::template::TemplateVariables::default_test_variables(),
    );
    let render_err = engine.render("bar").unwrap_err();
    assert!(render_err.message().contains("Failed to render template"));
    assert!(render_err.message().starts_with("Failed to render template bar: "));

    let not_found = TemplateError::TemplateNotFound {
        path: "baz".to_string(),
    };
    assert!(not_found.message().contains("Template not found"));
    assert_eq!(not_found.message(), "Template not found: baz");
}

#[test]
fn test_result_type() {
    fn takes_result<T>(r: Result<T, TemplateError>) -> bool {
        r.is_ok()
    }
    let ok: Result<u8, TemplateError> = Ok(42);
    let err: Result<u8, TemplateError> = Err(TemplateError::TemplateNotFound { path: "x".into() });
    assert!(takes_result(ok));
    assert!(!takes_result(err));
}

#[test]
fn test_project_type_display() {
    assert_eq!(ProjectType::Binary.label(), "Binary application");
    assert_eq!(ProjectType::Library.label(), "Library crate");
}

#[test]
fn test_config_struct_instantiation() {
    let config = Config {
        name: "foo".to_string(),
        bin: true,
        lib: false,
        edition: "2021".to_string(),
        license: "MIT".to_string(),
        git: true,
        path: "/tmp/foo".to_string(),
        yes: false,
    };
    assert_eq!(config.name, "foo");
    assert!(config.bin);
}

#[test]
fn listing_gives_shared_templates_before_those_of_the_project_type() {
    let loader = TemplateLoader::new("/repo");
    let templates = walk_test_repository(&loader);
    assert_eq!(
        templates,
        vec![
            "/repo/base/README.md.hbs".to_string(),
            "/repo/binary/minimal/src/main.rs.hbs".to_string()
        ]
    );
    assert_eq!(loader.get_destination_path(&templates[0], "/out"), "/out/README.md");
    assert_eq!(loader.get_destination_path(&templates[1], "/out"), "/out/src/main.rs");
    assert_eq!(loader.template_source(&templates[0]), "base/README.md.hbs");
    assert_eq!(loader.template_source(&templates[1]), "binary/minimal/src/main.rs.hbs");
}

#[test]
fn missing_type_directory_ends_the_listing() {
    let loader = TemplateLoader::new("/repo");
    for (shape, variant, expected) in [
        (ProjectType::Binary, TemplateVariant::Minimal, "/repo/binary/minimal"),
        (ProjectType::Binary, TemplateVariant::Extended, "/repo/binary/extended"),
        (ProjectType::Library, TemplateVariant::Minimal, "/repo/library/minimal"),
        (ProjectType::Library, TemplateVariant::Extended, "/repo/library/extended"),
    ] {
        let (mut walk, step) = loader.list_templates(shape, variant);
        expect_probe(step, expected);
        match walk.advance(WalkEvent::Exists(false)) {
            WalkStep::Failed(TemplateError::TemplateNotFound { path }) => assert_eq!(path, expected),
            other => panic!("expected a missing directory, got {other:?}"),
        }
        assert_eq!(walk.stage(), WalkStage::Failed);
        assert!(walk.is_finished());
        assert!(walk.templates().is_empty());
    }
}

#[test]
fn missing_shared_layer_is_passed_over() {
    let (mut walk, _) = TemplateWalk::begin("/repo", ProjectType::Library, TemplateVariant::Extended);
    expect_probe(walk.advance(WalkEvent::Exists(true)), "/repo/base");
    expect_list(walk.advance(WalkEvent::Exists(false)), "/repo/library/extended");
    let last = walk.advance(WalkEvent::Entries(vec![file("lib.rs.hbs"), file("notes.txt")]));
    assert!(matches!(last, WalkStep::Done));
    assert_eq!(walk.shared_count(), 0);
    assert_eq!(walk.into_templates(), vec!["/repo/library/extended/lib.rs.hbs".to_string()]);
}

#[test]
fn listing_descends_depth_first_in_listing_order() {
    let (mut walk, _) = TemplateWalk::begin("t", ProjectType::Binary, TemplateVariant::Extended);
    expect_probe(walk.advance(WalkEvent::Exists(true)), "t/base");
    expect_list(walk.advance(WalkEvent::Exists(true)), "t/base");
    expect_list(
        walk.advance(WalkEvent::Entries(vec![
            file("a.hbs"),
            dir("sub"),
            file("skip.md"),
            file("z.toml.hbs"),
            dir("empty"),
        ])),
        "t/base/sub",
    );
    expect_list(
        walk.advance(WalkEvent::Entries(vec![dir("deep"), file("b.hbs")])),
        "t/base/sub/deep",
    );
    expect_list(walk.advance(WalkEvent::Entries(vec![file("c.hbs")])), "t/base/empty");
    expect_list(walk.advance(WalkEvent::Entries(vec![])), "t/binary/extended");
    assert_eq!(walk.stage(), WalkStage::ListTyped);
    assert_eq!(walk.shared_count(), 4);
    let last = walk.advance(WalkEvent::Entries(vec![file(".hbs"), file("main.rs.hbs")]));
    assert!(matches!(last, WalkStep::Done));
    assert_eq!(
        walk.into_templates(),
        vec![
            "t/base/a.hbs".to_string(),
            "t/base/sub/deep/c.hbs".to_string(),
            "t/base/sub/b.hbs".to_string(),
            "t/base/z.toml.hbs".to_string(),
            "t/binary/extended/main.rs.hbs".to_string(),
        ]
    );
}

#[test]
fn an_empty_type_directory_gives_no_templates() {
    let (mut walk, _) = TemplateWalk::begin("t", ProjectType::Binary, TemplateVariant::Minimal);
    walk.advance(WalkEvent::Exists(true));
    walk.advance(WalkEvent::Exists(false));
    let last = walk.advance(WalkEvent::Entries(vec![]));
    assert!(matches!(last, WalkStep::Done));
    assert!(walk.templates().is_empty());
}

#[test]
fn an_unreadable_directory_fails_the_listing() {
    let (mut walk, _) = TemplateWalk::begin("t", ProjectType::Binary, TemplateVariant::Minimal);
    walk.advance(WalkEvent::Exists(true));
    walk.advance(WalkEvent::Exists(true));
    expect_list(walk.advance(WalkEvent::Entries(vec![file("a.hbs"), dir("locked")])), "t/base/locked");
    match walk.advance(WalkEvent::Unreadable(std::io::Error::other("denied"))) {
        WalkStep::Failed(TemplateError::LoadError { path, source }) => {
            assert_eq!(path, "t/base/locked");
            assert_eq!(source.to_string(), "denied");
        }
        other => panic!("expected a load error, got {other:?}"),
    }
    assert!(walk.is_finished());
    assert!(walk.templates().is_empty());
}

#[test]
fn an_answer_that_was_not_asked_for_repeats_the_question() {
    let (mut walk, _) = TemplateWalk::begin("t", ProjectType::Binary, TemplateVariant::Minimal);
    expect_probe(walk.advance(WalkEvent::Entries(vec![file("a.hbs")])), "t/binary/minimal");
    expect_probe(
        walk.advance(WalkEvent::Unreadable(std::io::Error::other("x"))),
        "t/binary/minimal",
    );
    walk.advance(WalkEvent::Exists(true));
    expect_list(walk.advance(WalkEvent::Exists(true)), "t/base");
    expect_list(walk.advance(WalkEvent::Exists(false)), "t/base");
    assert!(walk.templates().is_empty());
}

#[test]
fn destination_strips_the_layer_and_the_marker() {
    assert_eq!(destination_for("base/README.md.hbs", "/out"), "/out/README.md");
    assert_eq!(destination_for("base/a/b/Cargo.toml.hbs", "/out"), "/out/a/b/Cargo.toml");
    assert_eq!(destination_for("binary/minimal/src/main.rs.hbs", "/out"), "/out/src/main.rs");
    assert_eq!(destination_for("library/extended/src/lib.rs.hbs", "out"), "out/src/lib.rs");
    assert_eq!(destination_for("library/anything/x.hbs", "/out/"), "/out/x");
    assert_eq!(destination_for("other/minimal/x.hbs", "/out"), "/out/other/minimal/x");
    assert_eq!(destination_for("binary/x.hbs", "/out"), "/out/binary/x");
    assert_eq!(destination_for("binary", "/out"), "/out/binary");
    assert_eq!(destination_for("basement/x.hbs", "/out"), "/out/basement/x");
    assert_eq!(destination_for("plain.txt", "/out"), "/out/plain.txt");
    assert_eq!(destination_for("base/double.hbs.hbs", "/out"), "/out/double.hbs");
}

#[test]
fn destination_with_nothing_left_is_the_root_with_an_empty_path() {
    assert_eq!(destination_for("base", "/out"), "/out/");
    assert_eq!(destination_for("base/", "/out"), "/out/");
    assert_eq!(destination_for("binary/minimal/", "/out"), "/out/");
    assert_eq!(destination_for("", "/out"), "/out/");
    assert_eq!(destination_for("base", "x.hbs"), "x");
    assert_eq!(destination_for("base", "x.txt"), "x.txt/");
}

#[test]
fn a_file_called_only_by_the_marker_keeps_its_name() {
    assert_eq!(destination_for("base/.hbs", "/out"), "/out/.hbs");
    assert_eq!(destination_for("binary/minimal/src/.hbs", "/out"), "/out/src/.hbs");
    assert_eq!(destination_for(".hbs", ""), ".hbs");
    assert_eq!(destination_for("a.hbs", ""), "a");
}

#[test]
fn destination_without_a_relative_path_uses_the_own_path() {
    let loader = TemplateLoader::new("/repo");
    assert_eq!(loader.get_destination_path("base/x.hbs", "/out"), "/out/x");
    assert_eq!(loader.template_source("base/x.hbs"), "base/x.hbs");
    let relative = TemplateLoader::new("templates");
    assert_eq!(relative.base_path(), "templates");
    assert_eq!(
        relative.get_destination_path("templates/binary/extended/src/main.rs.hbs", "out"),
        "out/src/main.rs"
    );
    assert_eq!(relative.get_destination_path("/abs/base/x.hbs", "out"), "/abs/base/x");
}

#[test]
fn joining_paths() {
    assert_eq!(join("/a", "b"), "/a/b");
    assert_eq!(join("/a/", "b"), "/a/b");
    assert_eq!(join("", "b"), "b");
    assert_eq!(join("/a", ""), "/a/");
    assert_eq!(join("/a", "/b"), "/b");
    assert_eq!(join("", ""), "");
}

#[test]
fn file_names_and_parents() {
    assert_eq!(file_name("/a/b.txt"), Some("b.txt".to_string()));
    assert_eq!(file_name("b"), Some("b".to_string()));
    assert_eq!(file_name("/a/b//"), Some("b".to_string()));
    assert_eq!(file_name("/"), None);
    assert_eq!(file_name(""), None);
    assert_eq!(file_name(".."), None);
    assert_eq!(parent_dir("/a/b"), Some("/a".to_string()));
    assert_eq!(parent_dir("/a/b/"), Some("/a".to_string()));
    assert_eq!(parent_dir("/a"), Some("/".to_string()));
    assert_eq!(parent_dir("/"), None);
    assert_eq!(parent_dir("a/b"), Some("a".to_string()));
    assert_eq!(parent_dir("a//b"), Some("a".to_string()));
    assert_eq!(parent_dir("a"), Some(String::new()));
    assert_eq!(parent_dir(""), None);
}

#[test]
fn going_up_from_parent_to_parent_ends() {
    let mut dir = "/one/two/three/four".to_string();
    let mut steps = 0;
    while let Some(parent) = parent_dir(&dir) {
        assert!(parent.len() < dir.len());
        dir = parent;
        steps += 1;
    }
    assert_eq!(dir, "/");
    assert_eq!(steps, 4);
}

#[test]
fn the_search_for_templates_goes_up_to_the_root() {
    let mut search = quickstart_lib::find_templates_dir("/home/user/project");
    let mut candidates = vec![search.candidate()];
    while let Some(above) = search.clone().ascend() {
        search = above;
        candidates.push(search.candidate());
    }
    assert_eq!(
        candidates,
        vec![
            "/home/user/project/templates".to_string(),
            "/home/user/templates".to_string(),
            "/home/templates".to_string(),
            "/templates".to_string(),
        ]
    );
    let relative = quickstart_lib::find_templates_dir("work");
    assert_eq!(relative.candidate(), "work/templates");
    let top = relative.ascend().unwrap();
    assert_eq!(top.candidate(), "templates");
    assert!(top.ascend().is_none());
}

/// The destination as path arithmetic on the platform computes it.
fn destination_by_path_arithmetic(base: &str, template_path: &str, dest_root: &str) -> String {
    let rel_path = pathdiff::diff_paths(template_path, base)
        .unwrap_or_else(|| PathBuf::from(template_path));
    let rel_path = rel_path.strip_prefix("base").unwrap_or(&rel_path).to_path_buf();
    let rel_path = if let Some(components) = rel_path.to_str() {
        let components: Vec<&str> = components.split('/').collect();
        if (components.first() == Some(&"library") || components.first() == Some(&"binary"))
            && components.len() >= 3
        {
            PathBuf::from(components[2..].join("/"))
        } else {
            rel_path
        }
    } else {
        rel_path
    };
    let dest_path = Path::new(dest_root).join(rel_path);
    if let Some(ext) = dest_path.extension() {
        if ext == "hbs" {
            return dest_path.with_extension("").to_string_lossy().into_owned();
        }
    }
    dest_path.to_string_lossy().into_owned()
}

#[test]
fn destinations_agree_with_path_arithmetic() {
    let records = [
        "/repo/base/README.md.hbs",
        "/repo/base/.gitignore.hbs",
        "/repo/base/docs/guide/intro.md.hbs",
        "/repo/base/LICENSE",
        "/repo/binary/minimal/src/main.rs.hbs",
        "/repo/binary/extended/Cargo.toml.hbs",
        "/repo/binary/extended/src/cli/args.rs.hbs",
        "/repo/library/minimal/src/lib.rs.hbs",
        "/repo/library/extended/benches/bench.rs.hbs",
        "/repo/library/extended/notes.txt",
        "/repo/other/kind/file.hbs",
        "/repo/binary/stray.hbs",
        "/repo/top.hbs",
    ];
    for root in ["/out", "/tmp/my-project", "relative/out", "/out/"] {
        let loader = TemplateLoader::new("/repo");
        for record in records {
            assert_eq!(
                loader.get_destination_path(record, root),
                destination_by_path_arithmetic("/repo", record, root),
                "record {record} under {root}"
            );
        }
    }
    let relative = TemplateLoader::new("templates");
    for record in ["templates/base/a.hbs", "templates/binary/minimal/src/b.rs.hbs"] {
        assert_eq!(
            relative.get_destination_path(record, "out"),
            destination_by_path_arithmetic("templates", record, "out")
        );
    }
}

#[test]
fn path_functions_agree_with_the_platform_on_plain_paths() {
    for (root, rel) in [("/a", "b"), ("/a/", "b/c"), ("", "b"), ("a/b", "c.txt"), ("/a", "/b")] {
        assert_eq!(join(root, rel), Path::new(root).join(rel).to_string_lossy());
    }
    for path in [
        "/a/b.txt", "b", "/a/b/", "/", "", "..", "a/b/c", "/x", "a/.", "a/./b", "./a", "/.", "./",
        ".", "a/b/.", "a//", "/a/./", "a/..", "../a", "a/.b", "a/b.", "a./", "/./a", "//a",
        "a/././", "./.", "a/.//.",
    ] {
        let expected = Path::new(path).file_name().map(|n| n.to_string_lossy().into_owned());
        assert_eq!(file_name(path), expected, "file name of {path:?}");
        let expected = Path::new(path).parent().map(|p| p.to_string_lossy().into_owned());
        assert_eq!(parent_dir(path), expected, "parent of {path:?}");
    }
}

/// The destination of a path relative to the repository as path arithmetic
/// on the platform computes it.
fn destination_of_relative(rel: &str, dest_root: &str) -> String {
    let rel_path = PathBuf::from(rel);
    let rel_path = match rel_path.strip_prefix("base") {
        Ok(rest) => rest.to_path_buf(),
        Err(_) => match rel_path.to_str() {
            Some(text) => {
                let components: Vec<&str> = text.split('/').collect();
                if (components.first() == Some(&"library") || components.first() == Some(&"binary"))
                    && components.len() >= 3
                {
                    PathBuf::from(components[2..].join("/"))
                } else {
                    rel_path.clone()
                }
            }
            None => rel_path.clone(),
        },
    };
    let dest_path = Path::new(dest_root).join(rel_path);
    if let Some(ext) = dest_path.extension() {
        if ext == "hbs" {
            return dest_path.with_extension("").to_string_lossy().into_owned();
        }
    }
    dest_path.to_string_lossy().into_owned()
}

#[test]
fn separators_behind_the_shared_layer_are_dropped() {
    assert_eq!(destination_for("base//x.hbs", "/out"), "/out/x");
    assert_eq!(destination_for("base/./x.hbs", "/out"), "/out/x");
    assert_eq!(destination_for("base///.//a/b.hbs", "/out"), "/out/a/b");
    assert_eq!(destination_for("base/x.hbs/", "/out"), "/out/x");
    assert_eq!(destination_for("base/x/.", "/out"), "/out/x");
    assert_eq!(destination_for("base/.", "/out"), "/out/");
    assert_eq!(destination_for("base//", "/out"), "/out/");
    assert_eq!(destination_for("base/..", "/out"), "/out/..");
}

#[test]
fn a_name_of_one_dot_loses_its_marker_like_any_other() {
    assert_eq!(destination_for("base/..hbs", "/out"), "/out/.");
    assert_eq!(destination_for("..hbs", "/out"), "/out/.");
}

#[test]
fn a_marker_is_stripped_in_front_of_separators_at_the_end() {
    assert_eq!(destination_for("x.hbs/", "/out"), "/out/x");
    assert_eq!(destination_for("a/b.hbs/.", "/out"), "/out/a/b");
    assert_eq!(destination_for("binary/minimal/x.hbs//", "/out"), "/out/x");
    assert_eq!(destination_for("x.txt/", "/out"), "/out/x.txt/");
}

#[test]
fn relative_destinations_agree_with_path_arithmetic() {
    let records = [
        "base/README.md.hbs",
        "base//x.hbs",
        "base/./x.hbs",
        "base/x.hbs/",
        "base/a/./b.hbs",
        "base/a//b.hbs",
        "base/",
        "base",
        "base/.",
        "base/..",
        "base/.hbs",
        "base/a..hbs",
        "base/x/.",
        "basement/x.hbs",
        "/base/x.hbs",
        "./base/x.hbs",
        "binary/minimal/src/main.rs.hbs",
        "binary/v//x",
        "binary//x.hbs",
        "binary/v/",
        "binary/v",
        "binary//",
        "binary/minimal/.hbs",
        "library/extended/x.hbs/",
        "x.hbs/",
        "a/b.hbs/.",
        ".hbs",
        "...hbs",
        "x.hbs",
        "",
    ];
    for root in ["/out", "/out/", "relative/out", ""] {
        for record in records {
            assert_eq!(
                destination_for(record, root),
                destination_of_relative(record, root),
                "record {record:?} under {root:?}"
            );
        }
    }
}

/// Runs the search from `start` in a world in which the directories of
/// `there` are the only ones that hold templates.
fn search_among(start: &str, there: &[&str]) -> (Option<String>, Vec<String>) {
    let mut search: TemplatesSearch = quickstart_lib::find_templates_dir(start);
    let mut probed = Vec::new();
    loop {
        let candidate = search.candidate();
        let found = there.contains(&candidate.as_str());
        probed.push(candidate);
        match search.step(found) {
            SearchStep::Probe(above) => search = above,
            SearchStep::Found(path) => return (Some(path), probed),
            SearchStep::NotFound => return (None, probed),
        }
    }
}

#[test]
fn the_search_stops_at_the_nearest_templates() {
    let (found, probed) = search_among("/home/user/project", &["/home/templates", "/templates"]);
    assert_eq!(found, Some("/home/templates".to_string()));
    assert_eq!(
        probed,
        vec![
            "/home/user/project/templates".to_string(),
            "/home/user/templates".to_string(),
            "/home/templates".to_string(),
        ]
    );
    let (found, probed) = search_among("/work", &["/work/templates"]);
    assert_eq!(found, Some("/work/templates".to_string()));
    assert_eq!(probed.len(), 1);
}

#[test]
fn the_search_ends_without_a_find_at_the_root() {
    let (found, probed) = search_among("/a/b", &[]);
    assert_eq!(found, None);
    assert_eq!(
        probed,
        vec!["/a/b/templates".to_string(), "/a/templates".to_string(), "/templates".to_string()]
    );
    assert_eq!(
        SearchStep::not_found_message(),
        "Could not find a 'templates/' directory in this or any parent directory."
    );
}

#[test]
fn one_step_of_the_search() {
    let search = quickstart_lib::find_templates_dir("/a/b");
    assert_eq!(search.clone().step(true), SearchStep::Found("/a/b/templates".to_string()));
    match search.step(false) {
        SearchStep::Probe(above) => assert_eq!(above.candidate(), "/a/templates"),
        other => panic!("the search went on with {other:?}"),
    }
    let root = quickstart_lib::find_templates_dir("/");
    assert_eq!(root.clone().step(false), SearchStep::NotFound);
    assert_eq!(root.step(true), SearchStep::Found("/templates".to_string()));
}

#[test]
fn parents_and_names_pass_over_a_dot_at_the_end() {
    assert_eq!(parent_dir("a/."), Some(String::new()));
    assert_eq!(file_name("a/."), Some("a".to_string()));
    assert_eq!(parent_dir("a/./b"), Some("a".to_string()));
    assert_eq!(parent_dir("./a"), Some(".".to_string()));
    assert_eq!(parent_dir("/."), None);
    assert_eq!(parent_dir("/a/b/./"), Some("/a".to_string()));
    assert_eq!(file_name("/a/b/./"), Some("b".to_string()));
    assert_eq!(file_name("a/.."), None);
    assert_eq!(parent_dir("a/.."), Some("a".to_string()));
}
